use vstd::prelude::*;

use crate::contract::{after_init, after_set_ref, forward_of, refs_of, set_ref_outcome};
use crate::state::ContractError;

verus! {

/// Once `init` has written `a`, over whatever was stored before, `GetRefs` answers `a`.
pub proof fn lemma_init_sets_state(a: Seq<char>)
    ensures
        refs_of(after_init(a)) == Ok::<Seq<char>, ContractError>(a),
{
}

/// `init` with `a` followed by `SetRef` with `b` succeeds and leaves `GetRefs` answering
/// `b`, and never `a` unless the two are the same address.
pub proof fn lemma_set_overwrites(a: Seq<char>, b: Seq<char>)
    ensures
        set_ref_outcome(after_init(a)) == Ok::<(), ContractError>(()),
        refs_of(after_set_ref(after_init(a), b)) == Ok::<Seq<char>, ContractError>(b),
        a != b ==> refs_of(after_set_ref(after_init(a), b)) != Ok::<Seq<char>, ContractError>(
            a,
        ),
{
}

/// Two `GetRefs` answers taken with no `SetRef` in between, on the same configuration,
/// are the same.
pub proof fn lemma_reads_repeat(
    cfg: Option<Seq<char>>,
    first: Result<Seq<char>, ContractError>,
    second: Result<Seq<char>, ContractError>,
)
    requires
        first == refs_of(cfg),
        second == refs_of(cfg),
    ensures
        first == second,
{
}

/// On an initialized configuration, `GetReferenceData { base, quote }` makes one request,
/// to the stored address, carrying `base` and `quote` unchanged.
pub proof fn lemma_forwarding_transparent(cfg: Option<Seq<char>>, base: Seq<char>, quote: Seq<char>)
    requires
        cfg is Some,
    ensures
        forward_of(cfg, base, quote) == Ok::<
            (Seq<char>, Seq<char>, Seq<char>),
            ContractError,
        >((cfg->0, base, quote)),
{
}

/// Before any `init`, `GetRefs`, `SetRef` and `GetReferenceData` all fail with `NotFound`,
/// and `SetRef` leaves the configuration empty.
pub proof fn lemma_uninitialized_fails(b: Seq<char>, base: Seq<char>, quote: Seq<char>)
    ensures
        refs_of(None) == Err::<Seq<char>, ContractError>(ContractError::NotFound),
        set_ref_outcome(None) == Err::<(), ContractError>(ContractError::NotFound),
        after_set_ref(None, b) == None::<Seq<char>>,
        forward_of(None, base, quote) == Err::<
            (Seq<char>, Seq<char>, Seq<char>),
            ContractError,
        >(ContractError::NotFound),
{
}

} // verus!
