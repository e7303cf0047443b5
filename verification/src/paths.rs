//! Derivation of every file path the front end touches.
//!
//! Paths are plain strings joined with `/`. A file name is a single path
//! component; giving it an extension follows the usual rule: the part of the
//! component after its last dot is replaced (a dot in the leading position
//! marks a hidden file, not an extension).
use vstd::prelude::*;

verus! {

/// What joining `base` and `name` with a separator yields.
pub open spec fn path_join_spec(base: Seq<char>, name: Seq<char>) -> Seq<char> {
    base + "/"@ + name
}

/// The index of the last dot of `name` that lies in `[1, i)`, or `0` when
/// there is none: a dot at index `0` marks a hidden file, not an extension.
pub open spec fn last_dot_from(name: Seq<char>, i: int) -> int
    decreases i,
{
    if i <= 1 {
        0
    } else if name[i - 1] == '.' {
        i - 1
    } else {
        last_dot_from(name, i - 1)
    }
}

/// How many leading characters of `name` its stem keeps: everything before
/// the last extension dot, or all of `name` when it has no extension.
pub open spec fn stem_len(name: Seq<char>) -> int {
    let d = last_dot_from(name, name.len() as int);
    if d == 0 {
        name.len() as int
    } else {
        d
    }
}

/// What giving the component `name` the extension `ext` yields.
pub open spec fn with_extension_spec(name: Seq<char>, ext: Seq<char>) -> Seq<char> {
    name.subrange(0, stem_len(name)) + "."@ + ext
}

/// Where a circuit's build artifact lives: `target/<circuit>.json` under the
/// package root.
pub open spec fn circuit_build_path_spec(dir: Seq<char>, circuit: Seq<char>) -> Seq<char> {
    path_join_spec(path_join_spec(dir, "target"@), with_extension_spec(circuit, "json"@))
}

/// Where an input configuration lives: `<file>.toml` under the package root.
pub open spec fn inputs_file_path_spec(dir: Seq<char>, file: Seq<char>) -> Seq<char> {
    path_join_spec(dir, with_extension_spec(file, "toml"@))
}

/// Where a proof lives: `proofs/<name>.proof` under the package root.
pub open spec fn proof_file_path_spec(dir: Seq<char>, name: Seq<char>) -> Seq<char> {
    path_join_spec(path_join_spec(dir, "proofs"@), with_extension_spec(name, "proof"@))
}

/// Where the verifier contract lives: `contract/plonk_vk.sol` under the
/// package root.
pub open spec fn contract_file_path_spec(dir: Seq<char>) -> Seq<char> {
    path_join_spec(path_join_spec(dir, "contract"@), with_extension_spec("plonk_vk"@, "sol"@))
}

/// Builds the build-artifact path of a circuit.
pub fn circuit_build_path(dir: &str, circuit: &str) -> (r: String)
    ensures
        r@ == circuit_build_path_spec(dir@, circuit@),
{
    let target = path_join(dir, "target");
    join_with_extension(target.as_str(), circuit, "json")
}

/// Builds the path of an input configuration file.
pub fn inputs_file_path(dir: &str, file: &str) -> (r: String)
    ensures
        r@ == inputs_file_path_spec(dir@, file@),
{
    join_with_extension(dir, file, "toml")
}

/// Builds the path of a proof file.
pub fn proof_file_path(dir: &str, name: &str) -> (r: String)
    ensures
        r@ == proof_file_path_spec(dir@, name@),
{
    let proofs = path_join(dir, "proofs");
    join_with_extension(proofs.as_str(), name, "proof")
}

/// Builds the path of the verifier contract file.
pub fn contract_file_path(dir: &str) -> (r: String)
    ensures
        r@ == contract_file_path_spec(dir@),
{
    let contract = path_join(dir, "contract");
    join_with_extension(contract.as_str(), "plonk_vk", "sol")
}

/// Copies a byte buffer.
pub fn clone_bytes(v: &Vec<u8>) -> (r: Vec<u8>)
    ensures
        r@ == v@,
{
    let mut r: Vec<u8> = Vec::new();
    let mut i: usize = 0;
    while i < v.len()
        invariant
            i <= v@.len(),
            r@ == v@.subrange(0, i as int),
        decreases v@.len() - i,
    {
        r.push(v[i]);
        proof {
            assert(r@ =~= v@.subrange(0, i + 1 as int));
        }
        i += 1;
    }
    proof {
        assert(v@.subrange(0, v@.len() as int) =~= v@);
    }
    r
}

/// Compares two strings by their character sequences.
pub fn str_eq(a: &str, b: &str) -> (r: bool)
    ensures
        r <==> a@ == b@,
{
    let a_len: usize = a.unicode_len();
    let b_len: usize = b.unicode_len();
    if a_len != b_len {
        return false;
    }
    let mut i: usize = 0;
    while i < a_len
        invariant
            i <= a_len,
            a_len == a@.len(),
            a_len == b@.len(),
            forall|j: int| 0 <= j < i ==> a@[j] == b@[j],
        decreases a_len - i,
    {
        if a.get_char(i) != b.get_char(i) {
            return false;
        }
        i += 1;
    }
    proof {
        assert(a@ =~= b@);
    }
    true
}

/// Copies a string.
pub fn clone_string(s: &String) -> (r: String)
    ensures
        r@ == s@,
{
    String::from_str(s.as_str())
}

/// Joins a directory path and one further component with a separator.
pub fn path_join(base: &str, name: &str) -> (r: String)
    ensures
        r@ == path_join_spec(base@, name@),
{
    let mut s = String::from_str(base);
    s.append("/");
    s.append(name);
    s
}

/// Replaces the extension of the path component `name` with `ext`, appending
/// one when `name` has no extension.
pub fn with_extension(name: &str, ext: &str) -> (r: String)
    ensures
        r@ == with_extension_spec(name@, ext@),
{
    let len: usize = name.unicode_len();
    let mut i: usize = len;
    let mut dot: usize = 0;
    while i > 1 && dot == 0
        invariant
            i <= len,
            len == name@.len(),
            dot == 0 ==> last_dot_from(name@, len as int) == last_dot_from(name@, i as int),
            dot != 0 ==> dot == last_dot_from(name@, len as int) && 1 <= dot < len,
        decreases i, (if dot == 0 { 1int } else { 0int }),
    {
        if name.get_char(i - 1) == '.' {
            dot = i - 1;
        } else {
            i -= 1;
        }
    }
    let mut s: String;
    if dot == 0 {
        proof {
            assert(name@.subrange(0, stem_len(name@)) =~= name@);
        }
        s = String::from_str(name);
    } else {
        s = String::from_str(name.substring_char(0, dot));
    }
    s.append(".");
    s.append(ext);
    s
}

/// Joins a directory path and a file component carrying the given extension.
pub fn join_with_extension(base: &str, name: &str, ext: &str) -> (r: String)
    ensures
        r@ == path_join_spec(base@, with_extension_spec(name@, ext@)),
{
    let file = with_extension(name, ext);
    path_join(base, file.as_str())
}

/// Where the CRS cache lives: the override directory when one is configured,
/// otherwise a `.nargo/backends` tree under the home directory, either one
/// extended with the backend identifier and the blob's file name. With
/// neither an override nor a home directory there is no cache location.
pub fn common_reference_string_location(cache_override: Option<String>, home: Option<String>) -> (r:
    Option<String>)
    ensures
        match r {
            Some(p) => {
                let root = match cache_override {
                    Some(d) => d@,
                    None => path_join_spec(path_join_spec(home->Some_0@, ".nargo"@), "backends"@),
                };
                &&& cache_override is Some || home is Some
                &&& p@ == path_join_spec(
                    path_join_spec(root, "halo2-kzg"@),
                    "common-reference-string.bin"@,
                )
            },
            None => cache_override is None && home is None,
        },
{
    let root: String = match cache_override {
        Some(d) => d,
        None => {
            match home {
                Some(h) => {
                    let n = path_join(h.as_str(), ".nargo");
                    path_join(n.as_str(), "backends")
                },
                None => {
                    return None;
                },
            }
        },
    };
    let backend_dir = path_join(root.as_str(), "halo2-kzg");
    Some(path_join(backend_dir.as_str(), "common-reference-string.bin"))
}

/// Looks for `file_name.extension` in a directory listing and returns the
/// index of its first occurrence.
pub fn find_file(entries: &Vec<String>, file_name: &str, extension: &str) -> (r: Option<usize>)
    ensures
        match r {
            Some(i) => {
                &&& i < entries@.len()
                &&& entries@[i as int]@ == with_extension_spec(file_name@, extension@)
                &&& forall|j: int|
                    0 <= j < i ==> entries@[j]@ != with_extension_spec(file_name@, extension@)
            },
            None => forall|j: int|
                0 <= j < entries@.len() ==> entries@[j]@ != with_extension_spec(
                    file_name@,
                    extension@,
                ),
        },
{
    let target = with_extension(file_name, extension);
    let mut i: usize = 0;
    while i < entries.len()
        invariant
            i <= entries@.len(),
            target@ == with_extension_spec(file_name@, extension@),
            forall|j: int|
                0 <= j < i ==> entries@[j]@ != with_extension_spec(file_name@, extension@),
        decreases entries@.len() - i,
    {
        if str_eq(entries[i].as_str(), target.as_str()) {
            return Some(i);
        }
        i += 1;
    }
    None
}

/// Whether a directory listing holds an entry with the given name.
pub open spec fn listing_has(listing: Seq<String>, name: Seq<char>) -> bool {
    exists|k: int| 0 <= k < listing.len() && listing[k]@ == name
}

/// Walks the directory listings of a path's ancestors, nearest first, and
/// returns the index of the first one that holds the package manifest
/// `Nargo.toml`: that ancestor is the package root.
pub fn find_package_manifest(ancestor_listings: &Vec<Vec<String>>) -> (r: Option<usize>)
    ensures
        match r {
            Some(i) => {
                &&& i < ancestor_listings@.len()
                &&& listing_has(
                    ancestor_listings@[i as int]@,
                    with_extension_spec("Nargo"@, "toml"@),
                )
                &&& forall|j: int|
                    0 <= j < i ==> !listing_has(
                        ancestor_listings@[j]@,
                        with_extension_spec("Nargo"@, "toml"@),
                    )
            },
            None => forall|j: int|
                0 <= j < ancestor_listings@.len() ==> !listing_has(
                    ancestor_listings@[j]@,
                    with_extension_spec("Nargo"@, "toml"@),
                ),
        },
{
    let mut i: usize = 0;
    while i < ancestor_listings.len()
        invariant
            i <= ancestor_listings@.len(),
            forall|j: int|
                0 <= j < i ==> !listing_has(
                    ancestor_listings@[j]@,
                    with_extension_spec("Nargo"@, "toml"@),
                ),
        decreases ancestor_listings@.len() - i,
    {
        if find_file(&ancestor_listings[i], "Nargo", "toml").is_some() {
            return Some(i);
        }
        i += 1;
    }
    None
}

} // verus!
