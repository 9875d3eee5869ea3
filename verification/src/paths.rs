//! Where the configuration lives below the home directory. A path is the
//! list of its components; the home directory is given by the caller.

use crate::text::texts;
use vstd::prelude::*;
use vstd::string::StringSliceAdditionalSpecFns;

verus! {

/// The SHA-256 digest of `data`, as the `sha2` crate computes it.
pub uninterp spec fn sha256(data: Seq<u8>) -> Seq<u8>;

/// `sha2::Sha256::digest`: the SHA-256 digest of the data, which is 32
/// bytes long. The digest depends on the data alone; the library gives it
/// the name [`sha256`].
#[verifier::external_body]
fn sha256_digest(data: &[u8]) -> (r: Vec<u8>)
    ensures
        r@ == sha256(data@),
        r@.len() == 32,
{
    <sha2::Sha256 as sha2::Digest>::digest(data).to_vec()
}

/// The text of one hexadecimal digit, in lower case.
pub open spec fn hex_digit_text(d: nat) -> Seq<char> {
    if d == 0 {
        "0"@
    } else if d == 1 {
        "1"@
    } else if d == 2 {
        "2"@
    } else if d == 3 {
        "3"@
    } else if d == 4 {
        "4"@
    } else if d == 5 {
        "5"@
    } else if d == 6 {
        "6"@
    } else if d == 7 {
        "7"@
    } else if d == 8 {
        "8"@
    } else if d == 9 {
        "9"@
    } else if d == 10 {
        "a"@
    } else if d == 11 {
        "b"@
    } else if d == 12 {
        "c"@
    } else if d == 13 {
        "d"@
    } else if d == 14 {
        "e"@
    } else {
        "f"@
    }
}

/// The first `n` bytes in hexadecimal, two digits each.
pub open spec fn hex_text(bytes: Seq<u8>, n: int) -> Seq<char>
    decreases n,
{
    if n <= 0 || n > bytes.len() {
        Seq::empty()
    } else {
        hex_text(bytes, n - 1) + hex_digit_text((bytes[n - 1] / 16) as nat) + hex_digit_text(
            (bytes[n - 1] % 16) as nat,
        )
    }
}

fn hex_digit(d: u8) -> (r: &'static str)
    requires
        d < 16,
    ensures
        r@ == hex_digit_text(d as nat),
{
    if d == 0 {
        "0"
    } else if d == 1 {
        "1"
    } else if d == 2 {
        "2"
    } else if d == 3 {
        "3"
    } else if d == 4 {
        "4"
    } else if d == 5 {
        "5"
    } else if d == 6 {
        "6"
    } else if d == 7 {
        "7"
    } else if d == 8 {
        "8"
    } else if d == 9 {
        "9"
    } else if d == 10 {
        "a"
    } else if d == 11 {
        "b"
    } else if d == 12 {
        "c"
    } else if d == 13 {
        "d"
    } else if d == 14 {
        "e"
    } else {
        "f"
    }
}

/// How many bytes of the digest name a workspace.
pub open spec fn digest_prefix(digest: Seq<u8>) -> int {
    if digest.len() < 8 {
        digest.len() as int
    } else {
        8
    }
}

/// The name of the directory that holds the configuration of a workspace:
/// the last component of the workspace's path, or `root` where it has none,
/// a hyphen, and the first eight bytes of `digest` in hexadecimal.
pub open spec fn encoded_name(last_component: Option<Seq<char>>, digest: Seq<u8>) -> Seq<char> {
    (match last_component {
        Some(name) => name,
        None => "root"@,
    }) + "-"@ + hex_text(digest, digest_prefix(digest))
}

/// The name of a workspace's directory, from the digest of its path.
pub fn encode_digest(last_component: Option<&str>, digest: &Vec<u8>) -> (r: String)
    ensures
        r@ == encoded_name(
            match last_component {
                Some(name) => Some(name@),
                None => None,
            },
            digest@,
        ),
{
    let mut out = match last_component {
        Some(name) => String::from_str(name),
        None => String::from_str("root"),
    };
    out.append("-");
    let ghost head = out@;
    let n: usize = if digest.len() < 8 {
        digest.len()
    } else {
        8
    };
    let mut i: usize = 0;
    proof {
        assert(head + hex_text(digest@, 0) =~= head);
    }
    while i < n
        invariant
            i <= n,
            n <= digest.len(),
            out@ == head + hex_text(digest@, i as int),
        decreases n - i,
    {
        let b = digest[i];
        out.append(hex_digit(b / 16));
        out.append(hex_digit(b % 16));
        proof {
            assert(out@ =~= head + hex_text(digest@, i + 1));
        }
        i += 1;
    }
    out
}

/// The name of the directory that holds the configuration of the workspace
/// at `path`, whose last component is `last_component`.
pub fn encode_path(last_component: Option<&str>, path: &str) -> (r: String)
    ensures
        r@ == encoded_name(
            match last_component {
                Some(name) => Some(name@),
                None => None,
            },
            sha256(path.spec_bytes()),
        ),
{
    let digest = sha256_digest(path.as_bytes());
    encode_digest(last_component, &digest)
}

/// The components of `base` followed by `more`.
pub fn join_path(base: &Vec<String>, more: Vec<String>) -> (r: Vec<String>)
    ensures
        texts(r@) == texts(base@) + texts(more@),
{
    let mut out = crate::text::clone_texts(base);
    let mut more = more;
    let ghost added = more@;
    out.append(&mut more);
    proof {
        assert(texts(out@) =~= texts(base@) + texts(added));
    }
    out
}

/// The directory of Symposium below the home directory.
pub fn symposium_dir(home: &Vec<String>) -> (r: Vec<String>)
    ensures
        texts(r@) == texts(home@) + seq![".symposium"@],
{
    let mut more: Vec<String> = Vec::new();
    more.push(String::from_str(".symposium"));
    proof {
        assert(texts(more@) =~= seq![".symposium"@]);
    }
    join_path(home, more)
}

/// The file that holds the default agent.
pub fn global_agent_path(home: &Vec<String>) -> (r: Vec<String>)
    ensures
        texts(r@) == texts(home@) + seq![".symposium"@, "config"@, "agent.json"@],
{
    let mut more: Vec<String> = Vec::new();
    more.push(String::from_str(".symposium"));
    more.push(String::from_str("config"));
    more.push(String::from_str("agent.json"));
    proof {
        assert(texts(more@) =~= seq![".symposium"@, "config"@, "agent.json"@]);
    }
    join_path(home, more)
}

/// The directory that holds the configuration of the workspace whose
/// encoded name is `encoded`.
pub fn workspace_config_dir(home: &Vec<String>, encoded: String) -> (r: Vec<String>)
    ensures
        texts(r@) == texts(home@) + seq![".symposium"@, "config"@, encoded@],
{
    let mut more: Vec<String> = Vec::new();
    more.push(String::from_str(".symposium"));
    more.push(String::from_str("config"));
    more.push(encoded);
    proof {
        assert(texts(more@) =~= seq![".symposium"@, "config"@, encoded@]);
    }
    join_path(home, more)
}

/// The file that holds the configuration of the workspace whose encoded
/// name is `encoded`.
pub fn config_path(home: &Vec<String>, encoded: String) -> (r: Vec<String>)
    ensures
        texts(r@) == texts(home@) + seq![".symposium"@, "config"@, encoded@, "config.json"@],
{
    let mut more: Vec<String> = Vec::new();
    more.push(String::from_str(".symposium"));
    more.push(String::from_str("config"));
    more.push(encoded);
    more.push(String::from_str("config.json"));
    proof {
        assert(texts(more@) =~= seq![".symposium"@, "config"@, encoded@, "config.json"@]);
    }
    join_path(home, more)
}

} // verus!
