use vstd::prelude::*;
use vstd::utf8::{decode_utf8, encode_utf8, valid_utf8};
use crate::text::{str_eq, utf8_text};
use crate::types::{CredentialResponse, NearCredential};

verus! {

/// Whether a directory name under the credential store names a network this
/// crate knows.
pub fn is_supported_network(name: &str) -> (r: bool)
    ensures
        r == (name@ == "mainnet"@ || name@ == "testnet"@),
{
    if str_eq(name, "mainnet") {
        true
    } else {
        str_eq(name, "testnet")
    }
}

/// The account id carried by a credential file name: the name's bytes before
/// a final `.json`, present only when that leaves a non-empty stem.
pub open spec fn spec_json_file_stem(b: Seq<u8>) -> Option<Seq<u8>> {
    if b.len() > 5 && b.skip(b.len() - 5) == encode_utf8(".json"@) {
        Some(b.take(b.len() - 5))
    } else {
        None
    }
}

/// Extracts the account id from a credential file name: the part before a
/// final `.json`. Names without that suffix, and names whose stem is not
/// text, carry no account id.
pub fn account_from_file_name(file_name: &str) -> (r: Option<String>)
    ensures
        r matches Some(a) ==> (spec_json_file_stem(encode_utf8(file_name@)) matches Some(st)
            && a@ == decode_utf8(st)),
        spec_json_file_stem(encode_utf8(file_name@)) is None ==> r is None,
        spec_json_file_stem(encode_utf8(file_name@)) matches Some(st) && valid_utf8(st)
            ==> r is Some,
{
    proof {
        reveal_strlit(".json");
    }
    let b = file_name.as_bytes();
    let n = b.len();
    if n <= 5 {
        return None;
    }
    let suffix = ".json".as_bytes();
    assert(suffix@ == encode_utf8(".json"@));
    assert(suffix@.len() == 5) by {
        assert(".json"@.len() == 5);
        vstd::utf8::is_ascii_chars_encode_utf8(".json"@);
    }
    let mut j: usize = 0;
    while j < 5
        invariant
            j <= 5,
            n == b@.len(),
            n > 5,
            b@ == encode_utf8(file_name@),
            suffix@ == encode_utf8(".json"@),
            suffix@.len() == 5,
            forall|k: int| 0 <= k < j ==> b@[n - 5 + k] == suffix@[k],
        decreases 5 - j,
    {
        if b[n - 5 + j] != suffix[j] {
            proof {
                vstd::seq_lib::lemma_seq_skip_index(b@, n as int - 5, j as int);
                if b@.skip(n as int - 5) == suffix@ {
                    assert(b@.skip(n as int - 5)[j as int] == suffix@[j as int]);
                }
            }
            return None;
        }
        j = j + 1;
    }
    proof {
        assert(b@.skip(n as int - 5) =~= suffix@);
    }
    let mut stem: Vec<u8> = Vec::new();
    let mut i: usize = 0;
    while i < n - 5
        invariant
            i <= n - 5,
            n == b@.len(),
            n > 5,
            stem@ == b@.take(i as int),
        decreases n - 5 - i,
    {
        stem.push(b[i]);
        i = i + 1;
        proof {
            assert(stem@ =~= b@.take(i as int));
        }
    }
    utf8_text(&stem)
}

/// Assembles the credential reported for one readable credential file.
pub fn make_credential(
    account_id: String,
    network: String,
    public_key: String,
    private_key: String,
) -> (r: NearCredential)
    ensures
        r.account_id@ == account_id@,
        r.network@ == network@,
        r.public_key@ == public_key@,
        r.private_key matches Some(k) && k@ == private_key@,
{
    NearCredential { account_id, public_key, network, private_key: Some(private_key) }
}

/// The response when no home directory can be resolved.
pub fn missing_home_response() -> (r: CredentialResponse)
    ensures
        r.credentials@.len() == 0,
        r.error matches Some(m) && m@ == "Could not find home directory"@,
{
    CredentialResponse {
        credentials: Vec::new(),
        error: Some(String::from_str("Could not find home directory")),
    }
}

/// The response when the credential store itself cannot be read.
pub fn unreadable_store_response() -> (r: CredentialResponse)
    ensures
        r.credentials@.len() == 0,
        r.error matches Some(m) && m@ == "Failed to read credentials directory"@,
{
    CredentialResponse {
        credentials: Vec::new(),
        error: Some(String::from_str("Failed to read credentials directory")),
    }
}

/// The response carrying every credential the scan could read; a scan that
/// reached the store never reports an error, however few files parsed.
pub fn collected_response(credentials: Vec<NearCredential>) -> (r: CredentialResponse)
    ensures
        r.credentials == credentials,
        r.error is None,
{
    CredentialResponse { credentials, error: None }
}

} // verus!
