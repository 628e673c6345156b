//! Multi-signature admin configuration and approval checks.
//!
//! A configuration is a signer set with a threshold; a threshold of 0 means
//! multi-sig is disabled and the single owner authorises critical operations.
use vstd::prelude::*;
use crate::common::Address;

verus! {

/// Why a signer set cannot be configured.
#[derive(Clone, Copy, PartialEq, Eq, Structural, Debug)]
pub enum ConfigError {
    TooManySigners,
    InvalidThreshold,
    DuplicateSigner,
}

/// Why a set of approvals does not authorise an operation.
#[derive(Clone, Copy, PartialEq, Eq, Structural, Debug)]
pub enum ApprovalError {
    InvalidThreshold,
    DuplicateApproval,
    NotSigner,
    InsufficientApprovals,
}

/// No address occurs twice in `s`.
pub open spec fn distinct(s: Seq<Address>) -> bool {
    forall|i: int, j: int| 0 <= i < j < s.len() ==> s[i] != s[j]
}

/// The outcome of validating a configuration.
pub open spec fn config_outcome(signers: Seq<Address>, threshold: u32, max_signers: u32) -> Result<
    (),
    ConfigError,
> {
    if signers.len() > max_signers {
        Err(ConfigError::TooManySigners)
    } else if threshold == 0 || threshold > signers.len() {
        Err(ConfigError::InvalidThreshold)
    } else if !distinct(signers) {
        Err(ConfigError::DuplicateSigner)
    } else {
        Ok(())
    }
}

/// The first problem found when the approvals are checked in order: an
/// address that already appeared earlier in the list, or one that is not a
/// configured signer. Only the first `n` approvals are checked.
pub open spec fn first_bad_approval(signers: Seq<Address>, approvals: Seq<Address>, n: int) -> Option<
    ApprovalError,
>
    decreases n,
{
    if n <= 0 {
        None
    } else {
        match first_bad_approval(signers, approvals, n - 1) {
            Some(e) => Some(e),
            None => if approvals.subrange(0, n - 1).contains(approvals[n - 1]) {
                Some(ApprovalError::DuplicateApproval)
            } else if !signers.contains(approvals[n - 1]) {
                Some(ApprovalError::NotSigner)
            } else {
                None
            },
        }
    }
}

/// The outcome of checking `approvals` against a configuration. With
/// multi-sig disabled the owner alone must authorise; otherwise each
/// approval, in order, must be new in the list and a configured signer, and
/// at least `threshold` of them must be given. On success the result is the
/// list of addresses whose authorisation the host must then require.
pub open spec fn approval_outcome(
    owner: Address,
    threshold: u32,
    signers: Seq<Address>,
    approvals: Seq<Address>,
) -> Result<Seq<Address>, ApprovalError> {
    if threshold == 0 {
        Ok(seq![owner])
    } else if threshold > signers.len() {
        Err(ApprovalError::InvalidThreshold)
    } else {
        match first_bad_approval(signers, approvals, approvals.len() as int) {
            Some(e) => Err(e),
            None => if approvals.len() < threshold {
                Err(ApprovalError::InsufficientApprovals)
            } else {
                Ok(approvals)
            },
        }
    }
}

/// With no problem among the first `n` approvals, those are distinct
/// configured signers.
proof fn lemma_no_bad_approval(signers: Seq<Address>, approvals: Seq<Address>, n: int)
    requires
        0 <= n <= approvals.len(),
        first_bad_approval(signers, approvals, n) is None,
    ensures
        forall|i: int| 0 <= i < n ==> signers.contains(#[trigger] approvals[i]),
        forall|i: int, j: int| 0 <= i < j < n ==> approvals[i] != approvals[j],
    decreases n,
{
    if n > 0 {
        lemma_no_bad_approval(signers, approvals, n - 1);
        assert forall|i: int| 0 <= i < n - 1 implies #[trigger] approvals[i] != approvals[n - 1] by {
            assert(approvals.subrange(0, n - 1)[i] == approvals[i]);
        }
    }
}

/// Whether `x` occurs in `v`.
pub fn contains_address(v: &Vec<Address>, x: Address) -> (r: bool)
    ensures
        r == v@.contains(x),
{
    let n = v.len();
    let mut i: usize = 0;
    while i < n
        invariant
            n == v@.len(),
            i <= n,
            forall|j: int| 0 <= j < i ==> v@[j] != x,
        decreases n - i,
    {
        if v[i] == x {
            assert(v@[i as int] == x);
            return true;
        }
        i = i + 1;
    }
    false
}

/// Whether no address occurs twice in `v`.
pub fn is_distinct(v: &Vec<Address>) -> (r: bool)
    ensures
        r == distinct(v@),
{
    let n = v.len();
    let mut i: usize = 0;
    while i < n
        invariant
            n == v@.len(),
            i <= n,
            forall|a: int, b: int| 0 <= a < b < n && a < i ==> v@[a] != v@[b],
        decreases n - i,
    {
        let mut j: usize = i + 1;
        while j < n
            invariant
                n == v@.len(),
                i < n,
                i + 1 <= j <= n,
                forall|a: int, b: int| 0 <= a < b < n && a < i ==> v@[a] != v@[b],
                forall|b: int| i < b < j ==> v@[i as int] != v@[b],
            decreases n - j,
        {
            if v[i] == v[j] {
                return false;
            }
            j = j + 1;
        }
        i = i + 1;
    }
    true
}

/// Validate a signer set and threshold: see [`config_outcome`].
pub fn validate_multisig_config(signers: &Vec<Address>, threshold: u32, max_signers: u32) -> (r:
    Result<(), ConfigError>)
    ensures
        r == config_outcome(signers@, threshold, max_signers),
{
    if signers.len() > max_signers as usize {
        return Err(ConfigError::TooManySigners);
    }
    if threshold == 0 || threshold as usize > signers.len() {
        return Err(ConfigError::InvalidThreshold);
    }
    if !is_distinct(signers) {
        return Err(ConfigError::DuplicateSigner);
    }
    Ok(())
}

/// Whether `x` occurs among the first `n` entries of `v`.
fn occurs_before(v: &Vec<Address>, n: usize, x: Address) -> (r: bool)
    requires
        n <= v@.len(),
    ensures
        r == v@.subrange(0, n as int).contains(x),
{
    let mut i: usize = 0;
    while i < n
        invariant
            n <= v@.len(),
            i <= n,
            forall|j: int| 0 <= j < i ==> v@[j] != x,
        decreases n - i,
    {
        if v[i] == x {
            assert(v@.subrange(0, n as int)[i as int] == x);
            return true;
        }
        i = i + 1;
    }
    assert forall|j: int| 0 <= j < n implies v@.subrange(0, n as int)[j] != x by {}
    false
}

/// Check approvals against a configuration: see [`approval_outcome`].
pub fn require_admin_approval(
    owner: &Address,
    threshold: u32,
    signers: &Vec<Address>,
    approvals: Vec<Address>,
) -> (r: Result<Vec<Address>, ApprovalError>)
    ensures
        match (r, approval_outcome(*owner, threshold, signers@, approvals@)) {
            (Ok(v), Ok(s)) => v@ == s,
            (Err(e), Err(f)) => e == f,
            _ => false,
        },
{
    if threshold == 0 {
        let mut required: Vec<Address> = Vec::new();
        required.push(*owner);
        assert(required@ =~= seq![*owner]);
        return Ok(required);
    }
    if threshold as usize > signers.len() {
        return Err(ApprovalError::InvalidThreshold);
    }
    let n = approvals.len();
    let mut i: usize = 0;
    while i < n
        invariant
            n == approvals@.len(),
            i <= n,
            0 < threshold <= signers@.len(),
            first_bad_approval(signers@, approvals@, i as int) is None,
        decreases n - i,
    {
        if occurs_before(&approvals, i, approvals[i]) {
            proof {
                assert(first_bad_approval(signers@, approvals@, i + 1) == Some(
                    ApprovalError::DuplicateApproval,
                ));
                lemma_bad_approval_extends(signers@, approvals@, i + 1, n as int);
            }
            return Err(ApprovalError::DuplicateApproval);
        }
        if !contains_address(signers, approvals[i]) {
            proof {
                assert(first_bad_approval(signers@, approvals@, i + 1) == Some(
                    ApprovalError::NotSigner,
                ));
                lemma_bad_approval_extends(signers@, approvals@, i + 1, n as int);
            }
            return Err(ApprovalError::NotSigner);
        }
        i = i + 1;
    }
    if approvals.len() < threshold as usize {
        return Err(ApprovalError::InsufficientApprovals);
    }
    Ok(approvals)
}

/// The first problem found stays the first when more approvals are checked.
proof fn lemma_bad_approval_extends(signers: Seq<Address>, approvals: Seq<Address>, i: int, n: int)
    requires
        i <= n,
        first_bad_approval(signers, approvals, i) is Some,
    ensures
        first_bad_approval(signers, approvals, n) == first_bad_approval(signers, approvals, i),
    decreases n - i,
{
    if i < n {
        lemma_bad_approval_extends(signers, approvals, i, n - 1);
    }
}

/// Multi-sig is disabled exactly when the threshold is 0.
pub fn is_multisig_disabled(threshold: u32) -> (r: bool)
    ensures
        r == (threshold == 0),
{
    threshold == 0
}

/// Any accepted approval set names at least `threshold` distinct configured
/// signers when multi-sig is enabled.
pub proof fn law_accepted_approvals_meet_threshold(
    owner: Address,
    threshold: u32,
    signers: Seq<Address>,
    approvals: Seq<Address>,
)
    requires
        threshold > 0,
        approval_outcome(owner, threshold, signers, approvals) is Ok,
    ensures
        approvals.len() >= threshold,
        distinct(approvals),
        approvals.to_set().subset_of(signers.to_set()),
{
    lemma_no_bad_approval(signers, approvals, approvals.len() as int);
    assert forall|a: Address| approvals.to_set().contains(a) implies signers.to_set().contains(
        a,
    ) by {
        let i = approvals.index_of(a);
        assert(signers.contains(approvals[i]));
    }
}

} // verus!
