//! The one-shot initialization step.
//!
//! The processor's load operation is privileged and irreversible. The
//! library decides what is to be loaded and whether a load is still allowed;
//! the caller owns the memory the table is placed in and performs the load.

use crate::pointer::GDT;
use crate::table::{fixed_entries, GDTable};
use vstd::prelude::*;

verus! {

/// Tracks whether the table has been handed out for loading in this boot.
#[derive(Clone, Copy, Debug, PartialEq, Eq, Structural)]
pub struct BootContext {
    loaded: bool,
}

/// What the caller must place in memory and hand to the load operation.
#[derive(Clone, Copy, Debug)]
pub struct LoadRequest {
    /// The table, to be placed at the address the pointer names.
    pub table: GDTable,
    /// The pointer to hand to the load operation.
    pub pointer: GDT,
}

/// Why initialization was refused.
#[derive(Clone, Copy, Debug, PartialEq, Eq, Structural)]
pub enum InitError {
    /// The table was already handed out for loading in this boot.
    AlreadyInitialized,
}

/// How one call of `init` relates the context before and after it to what
/// the call returns.
///
/// On a fresh context the call marks it loaded and returns the fixed table
/// with a pointer of limit 39 to `table_base`. On a loaded context it leaves
/// the context as it was and returns `AlreadyInitialized`.
pub open spec fn init_step(
    before: BootContext,
    after: BootContext,
    table_base: u32,
    outcome: Result<LoadRequest, InitError>,
) -> bool {
    if before.is_loaded() {
        &&& after == before
        &&& outcome == Err::<LoadRequest, InitError>(InitError::AlreadyInitialized)
    } else {
        &&& after.is_loaded()
        &&& outcome is Ok
        &&& outcome->Ok_0.table@ == fixed_entries()
        &&& outcome->Ok_0.table.wf()
        &&& outcome->Ok_0.pointer == (GDT { limit: 39, base: table_base })
    }
}

impl BootContext {
    /// Whether the table has been handed out.
    pub closed spec fn is_loaded(self) -> bool {
        self.loaded
    }

    /// The context at the start of boot: nothing loaded yet.
    pub fn new() -> (ctx: BootContext)
        ensures
            !ctx.is_loaded(),
    {
        BootContext { loaded: false }
    }

    /// A context holds nothing but whether the table has been handed out.
    pub proof fn lemma_determined_by_loaded(a: BootContext, b: BootContext)
        requires
            a.is_loaded() == b.is_loaded(),
        ensures
            a == b,
    {
    }

    /// Whether the table has been handed out.
    pub fn loaded(&self) -> (b: bool)
        ensures
            b == self.is_loaded(),
    {
        self.loaded
    }
}

/// Builds the table and its pointer for a table placed at `table_base`, once
/// per boot. A second call is refused and changes nothing.
pub fn init(ctx: &mut BootContext, table_base: u32) -> (outcome: Result<LoadRequest, InitError>)
    ensures
        init_step(*old(ctx), *final(ctx), table_base, outcome),
        outcome is Ok <==> !old(ctx).is_loaded(),
        final(ctx).is_loaded(),
{
    if ctx.loaded {
        return Err(InitError::AlreadyInitialized);
    }
    let table = GDTable::new();
    let pointer = GDT::new(&table, table_base);
    ctx.loaded = true;
    Ok(LoadRequest { table, pointer })
}

/// Of two calls of `init` in a row on one context, the second is refused and
/// leaves the context as the first left it, whatever the first returned.
pub proof fn lemma_second_init_refused(
    c0: BootContext,
    c1: BootContext,
    c2: BootContext,
    base1: u32,
    base2: u32,
    r1: Result<LoadRequest, InitError>,
    r2: Result<LoadRequest, InitError>,
)
    requires
        init_step(c0, c1, base1, r1),
        init_step(c1, c2, base2, r2),
    ensures
        r2 == Err::<LoadRequest, InitError>(InitError::AlreadyInitialized),
        c2 == c1,
        c1.is_loaded(),
{
}

/// Whether the sequences record a run of calls of `init` on one context:
/// `contexts[i]` before call `i`, `contexts[i + 1]` after it, `bases[i]` the
/// address handed in and `outcomes[i]` what came back.
pub open spec fn init_run(
    contexts: Seq<BootContext>,
    bases: Seq<u32>,
    outcomes: Seq<Result<LoadRequest, InitError>>,
) -> bool {
    &&& contexts.len() == outcomes.len() + 1
    &&& bases.len() == outcomes.len()
    &&& forall|i: int|
        0 <= i < outcomes.len() ==> #[trigger] init_step(
            contexts[i],
            contexts[i + 1],
            bases[i],
            outcomes[i],
        )
}

/// In any run of calls of `init` on one context, only the first can hand out
/// a load request, and it does so exactly when the context was fresh: from a
/// fresh context the table is handed out for loading once, however often
/// `init` is called.
pub proof fn lemma_run_loads_once(
    contexts: Seq<BootContext>,
    bases: Seq<u32>,
    outcomes: Seq<Result<LoadRequest, InitError>>,
)
    requires
        init_run(contexts, bases, outcomes),
    ensures
        outcomes.len() > 0 ==> (outcomes[0] is Ok <==> !contexts[0].is_loaded()),
        forall|i: int|
            1 <= i < outcomes.len() ==> #[trigger] outcomes[i] == Err::<LoadRequest, InitError>(
                InitError::AlreadyInitialized,
            ),
        forall|i: int| 1 <= i < contexts.len() ==> (#[trigger] contexts[i]).is_loaded(),
{
    if outcomes.len() > 0 {
        assert(init_step(contexts[0], contexts[0int + 1], bases[0], outcomes[0]));
    }
    assert forall|i: int| 1 <= i < contexts.len() implies (#[trigger] contexts[i]).is_loaded() by {
        assert(init_step(contexts[i - 1], contexts[i - 1 + 1], bases[i - 1], outcomes[i - 1]));
    }
    assert forall|i: int| 1 <= i < outcomes.len() implies #[trigger] outcomes[i] == Err::<
        LoadRequest,
        InitError,
    >(InitError::AlreadyInitialized) by {
        assert(contexts[i].is_loaded());
        assert(init_step(contexts[i], contexts[i + 1], bases[i], outcomes[i]));
    }
}

} // verus!
