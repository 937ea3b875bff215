//! Account bytecode override: computing the account state that results from
//! substituting locally edited bytecode for an address's deployed code. The
//! new code hash is the Keccak-256 digest of the new bytecode — or, for
//! empty bytecode, the canonical empty-code digest — while balance and
//! nonce are carried over from the prior state (or defaulted when the
//! account did not exist).

use vstd::prelude::*;

verus! {

/// Per-address account state as the execution backend keeps it: code (absent
/// for code-less accounts), the 32-byte code hash, the 256-bit balance as
/// four little-endian 64-bit limbs, and the nonce.
pub struct AccountInfo {
    pub balance: [u64; 4],
    pub nonce: u64,
    pub code_hash: [u8; 32],
    pub code: Option<Vec<u8>>,
}

/// One requested bytecode substitution: the address whose code is replaced
/// and the new bytecode, possibly empty.
pub struct CodeTweak {
    pub address: [u8; 20],
    pub bytecode: Vec<u8>,
}

/// Mathematical model of an account: limbs, hash and code abstracted to
/// sequences.
pub struct AccountView {
    pub balance: Seq<u64>,
    pub nonce: u64,
    pub code_hash: Seq<u8>,
    pub code: Option<Seq<u8>>,
}

impl View for AccountInfo {
    type V = AccountView;

    open spec fn view(&self) -> AccountView {
        AccountView {
            balance: self.balance@,
            nonce: self.nonce,
            code_hash: self.code_hash@,
            code: match self.code {
                Option::Some(c) => Option::Some(c@),
                Option::None => Option::None,
            },
        }
    }
}

/// The Keccak-256 digest of a byte sequence.
pub uninterp spec fn keccak_of(bytes: Seq<u8>) -> Seq<u8>;

/// Relies on alloy_primitives::keccak256: the Keccak-256 digest of the
/// input, a function of the input bytes alone.
#[verifier::external_body]
fn keccak256_digest(bytes: &[u8]) -> (r: [u8; 32])
    ensures
        r@ == keccak_of(bytes@),
{
    alloy_primitives::keccak256(bytes).0
}

/// Relies on alloy_primitives::KECCAK256_EMPTY: the Keccak-256 digest of the
/// empty byte string, the canonical code hash of an account without code.
#[verifier::external_body]
fn empty_code_hash() -> (r: [u8; 32])
    ensures
        r@ == keccak_of(Seq::<u8>::empty()),
{
    alloy_primitives::KECCAK256_EMPTY.0
}

/// The state of an account that has never been touched: zero balance and
/// nonce, no code, and the canonical empty-code hash.
pub open spec fn account_default() -> AccountView {
    AccountView {
        balance: seq![0u64, 0u64, 0u64, 0u64],
        nonce: 0u64,
        code_hash: keccak_of(Seq::<u8>::empty()),
        code: Option::None,
    }
}

/// The model of an optional account, defaulting an absent one.
pub open spec fn account_or_default(prior: Option<AccountInfo>) -> AccountView {
    match prior {
        Option::Some(a) => a@,
        Option::None => account_default(),
    }
}

/// The account state after substituting `code` for the account's bytecode:
/// balance and nonce are kept, the code hash becomes the digest of the new
/// bytecode (the canonical empty-code digest when it is empty, which also
/// clears the code).
pub open spec fn spec_apply_tweak(prior: AccountView, code: Seq<u8>) -> AccountView {
    AccountView {
        balance: prior.balance,
        nonce: prior.nonce,
        code_hash: if code.len() == 0 {
            keccak_of(Seq::<u8>::empty())
        } else {
            keccak_of(code)
        },
        code: if code.len() == 0 {
            Option::None
        } else {
            Option::Some(code)
        },
    }
}

/// A fresh account record for an address the backend has never seen.
pub fn default_account_info() -> (r: AccountInfo)
    ensures
        r@ == account_default(),
{
    let r = AccountInfo {
        balance: [0u64, 0u64, 0u64, 0u64],
        nonce: 0u64,
        code_hash: empty_code_hash(),
        code: None,
    };
    proof {
        assert(r.balance@ =~= seq![0u64, 0u64, 0u64, 0u64]);
    }
    r
}

/// Apply one bytecode tweak to an account's prior state (absent when the
/// backend holds no record for the address): replace code and code hash,
/// keep balance and nonce.
pub fn apply_tweak(prior: Option<AccountInfo>, bytecode: Vec<u8>) -> (r: AccountInfo)
    ensures
        r@ == spec_apply_tweak(account_or_default(prior), bytecode@),
{
    let base = match prior {
        Some(a) => a,
        None => default_account_info(),
    };
    let code_hash = if bytecode.len() == 0 {
        empty_code_hash()
    } else {
        keccak256_digest(bytecode.as_slice())
    };
    let code = if bytecode.len() == 0 {
        None
    } else {
        Some(bytecode)
    };
    AccountInfo { balance: base.balance, nonce: base.nonce, code_hash, code }
}

/// Idempotence: applying the same tweak to an already tweaked account
/// leaves it unchanged.
pub proof fn lemma_apply_tweak_idempotent(prior: AccountView, code: Seq<u8>)
    ensures
        spec_apply_tweak(spec_apply_tweak(prior, code), code) == spec_apply_tweak(prior, code),
{
}

} // verus!
