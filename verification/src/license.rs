//! Plain data of the licensing and secure-storage commands, and the
//! masking of license keys for display.
//!
//! The storage file and the license service are outside collaborators;
//! the types here only carry their requests and answers across the command
//! interface.

use vstd::prelude::*;
use vstd::string::*;

verus! {

broadcast use vstd::string::is_ascii_spec_bytes;

/// One key/value pair to store.
#[derive(Debug)]
pub struct StorageItem {
    pub key: String,
    pub value: String,
}

/// Everything the secure storage holds.
#[derive(Debug)]
pub struct StorageResult {
    pub license_key: Option<String>,
    pub instance_id: Option<String>,
    pub selected_pluely_model: Option<String>,
}

/// Answer to an activation or deactivation request.
#[derive(Debug)]
pub struct ActivationResponse {
    pub activated: bool,
    pub error: Option<String>,
    pub license_key: Option<String>,
    pub instance: Option<InstanceInfo>,
    pub is_dev_license: bool,
}

/// Answer to a validation request.
#[derive(Debug)]
pub struct ValidateResponse {
    pub is_active: bool,
    pub last_validated_at: Option<String>,
    pub is_dev_license: bool,
}

/// One activated instance.
#[derive(Debug)]
pub struct InstanceInfo {
    pub id: String,
    pub name: String,
    pub created_at: String,
}

/// Answer to a checkout-link request.
#[derive(Debug)]
pub struct CheckoutResponse {
    pub success: Option<bool>,
    pub checkout_url: Option<String>,
    pub error: Option<String>,
}

/// `n` asterisks.
pub open spec fn stars(n: nat) -> Seq<char>
    decreases n,
{
    if n == 0 {
        Seq::empty()
    } else {
        stars((n - 1) as nat).push('*')
    }
}

/// A key masked for display: keys of up to eight characters vanish behind
/// as many asterisks; longer keys keep their first and last four characters
/// around a run of asterisks.
pub open spec fn masked_key(key: Seq<char>) -> Seq<char> {
    if key.len() <= 8 {
        stars(key.len())
    } else {
        key.take(4) + stars((key.len() - 8) as nat) + key.skip(key.len() - 4)
    }
}

/// Mask a license key for display.  Keys are ASCII; for anything else the
/// key's character boundaries would not be where the mask cuts it.
pub fn mask_license_key_cmd(license_key: String) -> (r: String)
    requires
        license_key.is_ascii(),
        license_key@.len() <= usize::MAX,
    ensures
        r@ == masked_key(license_key@),
{
    let s = license_key.as_str();
    proof {
        reveal_strlit("*");
        assert("*"@ =~= seq!['*']);
    }
    let n = s.len();
    proof {
        assert(is_ascii(s));
        is_ascii_spec_bytes(s);
        assert(s.spec_bytes().len() == s@.len());
    }
    assert(n == s@.len());
    if n <= 8 {
        let mut out = String::new();
        let mut i: usize = 0;
        while i < n
            invariant
                i <= n,
                out@ =~= stars(i as nat),
                "*"@ =~= seq!['*'],
            decreases n - i,
        {
            out.append("*");
            i = i + 1;
            assert(out@ =~= stars(i as nat));
        }
        assert(out@ =~= masked_key(s@));
        return out;
    }
    let first_four = s.substring_ascii(0, 4);
    let last_four = s.substring_ascii(n - 4, n);
    let mut out = String::from_str(first_four);
    let mut i: usize = 0;
    while i < n - 8
        invariant
            i <= n - 8,
            n == s@.len(),
            8 < n,
            first_four@ == s@.take(4),
            out@ =~= s@.take(4) + stars(i as nat),
            "*"@ =~= seq!['*'],
        decreases n - 8 - i,
    {
        out.append("*");
        i = i + 1;
        assert(out@ =~= s@.take(4) + stars(i as nat));
    }
    out.append(last_four);
    assert(out@ =~= masked_key(s@));
    out
}

} // verus!
