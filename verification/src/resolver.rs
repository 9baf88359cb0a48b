//! Import resolution.
//!
//! Before a program can be deployed or executed, every program it imports —
//! transitively — must be registered in the execution context, and a program
//! may only be registered after all of its own imports. The resolver walks
//! the import graph depth-first over a caller-supplied map from import
//! identifier to source text, producing a dependency-first registration plan
//! and detecting missing imports, malformed sources and import cycles. Its
//! termination is proved, so a cyclic graph is reported, never looped on.

use vstd::prelude::*;
use vstd::seq_lib::*;
use vstd::set_lib::*;

use crate::ident::{str_eq, valid_program_id, ProgramId};
use crate::runtime::{parse_program, parsed_header};

verus! {

/// A program as the resolver sees it: its identifier and its declared
/// imports.
pub struct ProgramMeta {
    /// The program's identifier.
    pub id: ProgramId,
    /// The identifiers of the program's declared imports.
    pub imports: Vec<ProgramId>,
}

/// A single registration: this program, from this source text.
pub struct PlanStep {
    /// The program to register.
    pub id: ProgramId,
    /// The source text it is parsed from.
    pub source: String,
}

/// Why resolution failed.
#[derive(Debug)]
pub enum ImportError {
    /// The identifier is neither registered nor present in the import map.
    MissingImport(ProgramId),
    /// The identifier's source in the import map does not parse as a program
    /// with that identifier.
    ParseFailure(ProgramId),
    /// The import graph reaches this identifier again while it is still
    /// being resolved.
    CyclicImport(ProgramId),
}

/// The views of a sequence of identifiers.
pub open spec fn id_views(ids: Seq<ProgramId>) -> Seq<Seq<char>> {
    ids.map_values(|p: ProgramId| p@)
}

/// A caller-supplied mapping from import identifier to source text.
pub struct ImportMap {
    entries: Vec<(ProgramId, String)>,
}

impl ImportMap {
    /// The keys, in insertion order.
    pub closed spec fn key_views(&self) -> Seq<Seq<char>> {
        Seq::new(self.entries@.len(), |i: int| self.entries@[i].0@)
    }

    /// Keys are unique.
    pub open spec fn wf(&self) -> bool {
        self.key_views().no_duplicates()
    }

    /// Whether the map has an entry for the identifier.
    pub open spec fn has_key(&self, k: Seq<char>) -> bool {
        self.key_views().contains(k)
    }

    /// The keys as a set.
    pub open spec fn key_set(&self) -> Set<Seq<char>> {
        self.key_views().to_set()
    }

    /// The position of the identifier's entry.
    pub closed spec fn index_of(&self, k: Seq<char>) -> int {
        choose|i: int| 0 <= i < self.entries@.len() && self.entries@[i].0@ == k
    }

    /// The source text stored for the identifier.
    pub closed spec fn value_of(&self, k: Seq<char>) -> Seq<char> {
        self.entries@[self.index_of(k)].1@
    }

    /// The source text of the entry at position `j`.
    pub closed spec fn entry_value(&self, j: int) -> Seq<char> {
        self.entries@[j].1@
    }

    /// A present key's position is in range, carries the key and its stored
    /// source, and under key uniqueness is the only such position.
    pub proof fn lemma_index_of(&self, k: Seq<char>)
        requires
            self.has_key(k),
        ensures
            0 <= self.index_of(k) < self.key_views().len(),
            self.key_views()[self.index_of(k)] == k,
            self.value_of(k) == self.entry_value(self.index_of(k)),
            self.wf() ==> forall|i: int|
                0 <= i < self.key_views().len() && self.key_views()[i] == k ==> i
                    == self.index_of(k),
    {
        let i0 = choose|i: int| 0 <= i < self.key_views().len() && self.key_views()[i] == k;
        assert(self.entries@[i0].0@ == k);
        assert(0 <= self.index_of(k) < self.entries@.len() && self.entries@[self.index_of(k)].0@
            == k);
        if self.wf() {
            assert forall|i: int|
                0 <= i < self.key_views().len() && self.key_views()[i] == k implies i
                == self.index_of(k) by {
                assert(self.key_views()[self.index_of(k)] == k);
            }
        }
    }

    /// An empty map.
    pub fn new() -> (r: ImportMap)
        ensures
            r.wf(),
            forall|k: Seq<char>| !r.has_key(k),
    {
        let r = ImportMap { entries: Vec::new() };
        proof {
            assert(forall|k: Seq<char>| !r.key_views().contains(k));
        }
        r
    }

    /// Adds an entry; reports whether it was added (a duplicate key is
    /// refused, leaving the map unchanged).
    pub fn insert(&mut self, id: ProgramId, source: String) -> (r: bool)
        requires
            old(self).wf(),
        ensures
            final(self).wf(),
            r <==> !old(self).has_key(id@),
            !r ==> *final(self) == *old(self),
            forall|k: Seq<char>|
                final(self).has_key(k) <==> old(self).has_key(k) || (r && k == id@),
            r ==> final(self).value_of(id@) == source@,
            forall|k: Seq<char>|
                old(self).has_key(k) && k != id@ ==> final(self).value_of(k) == old(
                    self,
                ).value_of(k),
    {
        broadcast use lemma_seq_contains_after_push;

        if self.contains_key(&id) {
            return false;
        }
        let ghost oldviews = self.key_views();
        let ghost idv = id@;
        let ghost srcv = source@;
        self.entries.push((id, source));
        proof {
            let lastidx = self.entries@.len() - 1;
            assert(self.entries@[lastidx].0@ == idv);
            assert(forall|i: int|
                0 <= i < oldviews.len() ==> self.key_views()[i] == oldviews[i]);
            assert(self.key_views() =~= oldviews.push(idv));
            assert(self.key_views().no_duplicates());
            assert forall|k: Seq<char>|
                self.has_key(k) implies oldviews.contains(k) || k == idv by {
                let i = choose|i: int|
                    0 <= i < self.key_views().len() && self.key_views()[i] == k;
                if i < oldviews.len() {
                    assert(oldviews[i] == k);
                }
            }
            // The value stored under the new key is the new source.
            let w = self.index_of(idv);
            assert(0 <= w < self.entries@.len() && self.entries@[w].0@ == idv);
            if w != lastidx {
                assert(oldviews[w] == idv);
                assert(oldviews.contains(idv));
            }
            assert(self.value_of(idv) == srcv);
            // Values stored under the old keys are untouched.
            assert forall|k: Seq<char>| oldviews.contains(k) && k != idv implies self.value_of(
                k,
            ) == old(self).value_of(k) by {
                let wn = self.index_of(k);
                assert(0 <= wn < self.entries@.len() && self.entries@[wn].0@ == k);
                assert(wn != lastidx);
                let wo = old(self).index_of(k);
                let i0 = choose|i: int| 0 <= i < oldviews.len() && oldviews[i] == k;
                assert(old(self).entries@[i0].0@ == k);
                assert(0 <= wo < old(self).entries@.len() && old(self).entries@[wo].0@ == k);
                assert(oldviews[wn] == k && oldviews[wo] == k);
                assert(wn == wo);
            }
        }
        true
    }

    /// Whether the map holds an entry for the identifier.
    pub fn contains_key(&self, id: &ProgramId) -> (r: bool)
        ensures
            r == self.has_key(id@),
    {
        let mut i: usize = 0;
        let n = self.entries.len();
        while i < n
            invariant
                0 <= i <= n,
                n == self.entries@.len(),
                forall|j: int| 0 <= j < i ==> self.key_views()[j] != id@,
            decreases n - i,
        {
            if str_eq(self.entries[i].0.as_str(), id.as_str()) {
                assert(self.key_views()[i as int] == id@);
                return true;
            }
            i += 1;
        }
        false
    }

    /// Looks the identifier up, returning its source text.
    pub fn lookup(&self, id: &ProgramId) -> (r: Option<&String>)
        requires
            self.wf(),
        ensures
            r is Some <==> self.has_key(id@),
            r matches Some(v) ==> v@ == self.value_of(id@),
    {
        let mut i: usize = 0;
        let n = self.entries.len();
        while i < n
            invariant
                0 <= i <= n,
                n == self.entries@.len(),
                self.wf(),
                forall|j: int| 0 <= j < i ==> self.key_views()[j] != id@,
            decreases n - i,
        {
            if str_eq(self.entries[i].0.as_str(), id.as_str()) {
                proof {
                    assert(self.key_views()[i as int] == id@);
                    let w = self.index_of(id@);
                    assert(0 <= w < self.entries@.len() && self.entries@[w].0@ == id@);
                    assert(self.key_views()[w] == id@);
                    assert(w == i as int);
                }
                return Some(&self.entries[i].1);
            }
            i += 1;
        }
        None
    }
}

/// The execution context: the identifiers of the programs registered so far.
pub struct Context {
    ids: Vec<ProgramId>,
}

impl Context {
    /// The registered identifiers, in registration order.
    pub closed spec fn views(&self) -> Seq<Seq<char>> {
        id_views(self.ids@)
    }

    /// Whether the identifier is registered.
    pub open spec fn has(&self, k: Seq<char>) -> bool {
        self.views().contains(k)
    }

    /// An empty context.
    pub fn new() -> (r: Context)
        ensures
            r.views() == Seq::<Seq<char>>::empty(),
            forall|k: Seq<char>| !r.has(k),
    {
        let r = Context { ids: Vec::new() };
        proof {
            assert(r.views() =~= Seq::<Seq<char>>::empty());
        }
        r
    }

    /// Whether the identifier is registered.
    pub fn contains_id(&self, id: &ProgramId) -> (r: bool)
        ensures
            r == self.has(id@),
    {
        let mut i: usize = 0;
        let n = self.ids.len();
        while i < n
            invariant
                0 <= i <= n,
                n == self.ids@.len(),
                forall|j: int| 0 <= j < i ==> self.views()[j] != id@,
            decreases n - i,
        {
            if str_eq(self.ids[i].as_str(), id.as_str()) {
                assert(self.views()[i as int] == id@);
                return true;
            }
            i += 1;
        }
        false
    }

    /// Registers the identifier.
    pub fn insert(&mut self, id: ProgramId)
        ensures
            final(self).views() == old(self).views().push(id@),
    {
        let ghost idv = id@;
        self.ids.push(id);
        proof {
            assert(self.views() =~= old(self).views().push(idv));
        }
    }
}

/// Whether an identifier is on the resolution stack.
fn stack_contains(stack: &Vec<ProgramId>, id: &ProgramId) -> (r: bool)
    ensures
        r == id_views(stack@).contains(id@),
{
    let mut i: usize = 0;
    let n = stack.len();
    while i < n
        invariant
            0 <= i <= n,
            n == stack@.len(),
            forall|j: int| 0 <= j < i ==> id_views(stack@)[j] != id@,
        decreases n - i,
    {
        if str_eq(stack[i].as_str(), id.as_str()) {
            assert(id_views(stack@)[i as int] == id@);
            return true;
        }
        i += 1;
    }
    false
}

/// The identifiers of a plan's steps, in registration order.
pub open spec fn plan_ids(plan: Seq<PlanStep>) -> Seq<Seq<char>> {
    plan.map_values(|s: PlanStep| s.id@)
}

/// The source text stored under `p` parses as a program whose identifier is
/// `p` and whose imports are all well-formed program identifiers.
pub open spec fn source_ok(p: Seq<char>, src: Seq<char>) -> bool {
    parsed_header(src) matches Some(h) && h.0 == p && (forall|i: int|
        0 <= i < h.1.len() ==> valid_program_id(#[trigger] h.1[i]))
}

/// One step of a plan is sound against the identifiers available before it:
/// its source is the map's entry for its identifier, that source parses to a
/// program with that identifier, and every import of that program is already
/// available.
pub open spec fn step_ok(step: PlanStep, prior: Seq<Seq<char>>, map: &ImportMap) -> bool {
    &&& map.has_key(step.id@)
    &&& step.source@ == map.value_of(step.id@)
    &&& parsed_header(step.source@) matches Some(h) && h.0 == step.id@ && (forall|k: int|
        0 <= k < h.1.len() ==> prior.contains(#[trigger] h.1[k]))
}

/// Every step of the plan is sound against the base identifiers plus the
/// steps before it: registering the plan in order never references an
/// unregistered import.
pub open spec fn plan_ok(plan: Seq<PlanStep>, base: Seq<Seq<char>>, map: &ImportMap) -> bool {
    forall|j: int|
        0 <= j < plan.len() ==> step_ok(#[trigger] plan[j], base + plan_ids(plan.take(j)), map)
}

/// The identifiers that resolution must not visit again: the registered ones
/// and the ones currently being resolved.
pub open spec fn covered(ctxv: Seq<Seq<char>>, stackv: Seq<Seq<char>>) -> Set<Seq<char>> {
    ctxv.to_set().union(stackv.to_set())
}

/// The entry at position `j` of the map is sound against `base` and the
/// entries before it: its source parses as a program with its key, and every
/// import of that program is in `base` or among the earlier keys.
pub open spec fn entry_ok(map: &ImportMap, j: int, base: Seq<Seq<char>>) -> bool {
    &&& source_ok(map.key_views()[j], map.entry_value(j))
    &&& parsed_header(map.entry_value(j)) matches Some(h) && (forall|k: int|
        0 <= k < h.1.len() ==> base.contains(#[trigger] h.1[k]) || map.key_views().take(
            j,
        ).contains(h.1[k]))
}

/// The map lists its entries dependency-first relative to `base`: under this
/// condition, and with every needed identifier available, resolution owes
/// success.
pub open spec fn entries_ordered(map: &ImportMap, base: Seq<Seq<char>>) -> bool {
    forall|j: int| 0 <= j < map.key_views().len() ==> #[trigger] entry_ok(map, j, base)
}

/// The identifier can be visited without failure: it is already available in
/// `base`, or it is a map entry that every identifier on the resolution
/// stack lies strictly after.
pub open spec fn visitable(
    map: &ImportMap,
    base: Seq<Seq<char>>,
    stackv: Seq<Seq<char>>,
    id: Seq<char>,
) -> bool {
    ||| base.contains(id)
    ||| (map.has_key(id) && (forall|k: Seq<char>|
        #[trigger] stackv.contains(k) ==> map.index_of(k) > map.index_of(id)))
}

/// Visits one import: registers it and, first, everything it transitively
/// imports.
fn visit(
    ctx: &mut Context,
    id: &ProgramId,
    map: &ImportMap,
    stack: &mut Vec<ProgramId>,
    plan: &mut Vec<PlanStep>,
    Ghost(base): Ghost<Seq<Seq<char>>>,
) -> (r: Result<(), ImportError>)
    requires
        map.wf(),
        old(ctx).views() == base + plan_ids(old(plan)@),
        plan_ok(old(plan)@, base, map),
        forall|k: Seq<char>|
            id_views(old(stack)@).contains(k) ==> map.has_key(k) && !old(ctx).has(k),
    ensures
        final(stack)@ == old(stack)@,
        final(ctx).views() == base + plan_ids(final(plan)@),
        plan_ok(final(plan)@, base, map),
        forall|k: Seq<char>| old(ctx).has(k) ==> final(ctx).has(k),
        forall|k: Seq<char>| final(ctx).has(k) ==> old(ctx).has(k) || map.has_key(k),
        forall|k: Seq<char>| id_views(old(stack)@).contains(k) ==> !final(ctx).has(k),
        r matches Ok(()) ==> final(ctx).has(id@) && (old(ctx).has(id@) || map.has_key(id@)),
        entries_ordered(map, base) && visitable(map, base, id_views(old(stack)@), id@)
            ==> r matches Ok(()),
        r matches Err(e) ==> match e {
            ImportError::MissingImport(m) => !final(ctx).has(m@) && !map.has_key(m@),
            ImportError::ParseFailure(p) => map.has_key(p@) && !source_ok(
                p@,
                map.value_of(p@),
            ),
            ImportError::CyclicImport(c) => map.has_key(c@),
        },
    decreases map.key_set().difference(covered(ctx.views(), id_views(stack@))).len(),
{
    broadcast use seq_to_set_is_finite;
    broadcast use lemma_seq_contains_after_push;
    broadcast use lemma_seq_concat_contains_all_elements;

    if ctx.contains_id(id) {
        return Ok(());
    }
    if stack_contains(stack, id) {
        proof {
            if entries_ordered(map, base) && visitable(map, base, id_views(stack@), id@) {
                if base.contains(id@) {
                    lemma_seq_concat_contains_all_elements(base, plan_ids(plan@), id@);
                    assert(ctx.has(id@));
                } else {
                    assert(id_views(stack@).contains(id@));
                    assert(map.index_of(id@) > map.index_of(id@));
                }
                assert(false);
            }
        }
        return Err(ImportError::CyclicImport(id.clone_id()));
    }
    let source = match map.lookup(id) {
        Some(source) => source.clone(),
        None => {
            proof {
                if entries_ordered(map, base) && visitable(map, base, id_views(stack@), id@) {
                    if base.contains(id@) {
                        lemma_seq_concat_contains_all_elements(base, plan_ids(plan@), id@);
                        assert(ctx.has(id@));
                    } else {
                        assert(map.has_key(id@));
                    }
                    assert(false);
                }
            }
            return Err(ImportError::MissingImport(id.clone_id()));
        },
    };
    proof {
        assert(map.value_of(id@) == source@);
    }
    let parsed = match parse_program(source.as_str()) {
        Ok(parsed) => parsed,
        Err(_) => {
            proof {
                assert(parsed_header(source@) is None);
                assert(!source_ok(id@, map.value_of(id@)));
                if entries_ordered(map, base) && visitable(map, base, id_views(stack@), id@) {
                    if base.contains(id@) {
                        lemma_seq_concat_contains_all_elements(base, plan_ids(plan@), id@);
                        assert(ctx.has(id@));
                    } else {
                        map.lemma_index_of(id@);
                        assert(entry_ok(map, map.index_of(id@), base));
                        assert(source_ok(id@, map.value_of(id@)));
                    }
                    assert(false);
                }
            }
            return Err(ImportError::ParseFailure(id.clone_id()));
        },
    };
    proof {
        assert(parsed_header(source@) is Some);
    }
    // The parsed header must carry this very identifier, with well-formed
    // import identifiers.
    if !str_eq(parsed.id.as_str(), id.as_str()) {
        proof {
            let h = parsed_header(source@).unwrap();
            assert(h.0 == parsed.id@);
            assert(!source_ok(id@, map.value_of(id@)));
            if entries_ordered(map, base) && visitable(map, base, id_views(stack@), id@) {
                if base.contains(id@) {
                    lemma_seq_concat_contains_all_elements(base, plan_ids(plan@), id@);
                    assert(ctx.has(id@));
                } else {
                    map.lemma_index_of(id@);
                    assert(entry_ok(map, map.index_of(id@), base));
                    assert(source_ok(id@, map.value_of(id@)));
                }
                assert(false);
            }
        }
        return Err(ImportError::ParseFailure(id.clone_id()));
    }
    let mut imports: Vec<ProgramId> = Vec::new();
    let mut pi: usize = 0;
    let n_imports = parsed.imports.len();
    while pi < n_imports
        invariant
            0 <= pi <= n_imports,
            n_imports == parsed.imports@.len(),
            imports@.len() == pi,
            map.wf(),
            map.has_key(id@),
            map.value_of(id@) == source@,
            parsed_header(source@) is Some,
            parsed_header(source@).unwrap().1.len() == parsed.imports@.len(),
            forall|j: int|
                0 <= j < n_imports ==> #[trigger] parsed.imports@[j]@ == parsed_header(
                    source@,
                ).unwrap().1[j],
            ctx.views() == base + plan_ids(plan@),
            plan_ok(plan@, base, map),
            plan@ == old(plan)@,
            stack@ == old(stack)@,
            !ctx.has(id@),
            forall|k: Seq<char>|
                id_views(stack@).contains(k) ==> map.has_key(k) && !ctx.has(k),
            forall|j: int| 0 <= j < pi ==> imports@[j]@ == #[trigger] parsed.imports@[j]@,
            forall|j: int| 0 <= j < pi ==> valid_program_id(#[trigger] imports@[j]@),
        decreases n_imports - pi,
    {
        match ProgramId::parse(parsed.imports[pi].as_str()) {
            Some(imp) => {
                proof {
                    assert(imp@ == parsed.imports@[pi as int]@);
                }
                imports.push(imp);
            },
            None => {
                proof {
                    let h = parsed_header(source@).unwrap();
                    assert(h.1[pi as int] == parsed.imports@[pi as int]@);
                    assert(!valid_program_id(h.1[pi as int]));
                    assert(!source_ok(id@, map.value_of(id@)));
                    if entries_ordered(map, base) && visitable(
                        map,
                        base,
                        id_views(stack@),
                        id@,
                    ) {
                        if base.contains(id@) {
                            lemma_seq_concat_contains_all_elements(
                                base,
                                plan_ids(plan@),
                                id@,
                            );
                            assert(ctx.has(id@));
                        } else {
                            map.lemma_index_of(id@);
                            assert(entry_ok(map, map.index_of(id@), base));
                            assert(source_ok(id@, map.value_of(id@)));
                        }
                        assert(false);
                    }
                }
                return Err(ImportError::ParseFailure(id.clone_id()));
            },
        }
        pi += 1;
    }

    let ghost keys = map.key_set();
    let ghost cov0 = covered(ctx.views(), id_views(stack@));
    let ghost measure0 = keys.difference(cov0).len();

    let ghost stack_pre = stack@;
    stack.push(id.clone_id());
    let ghost stack1 = stack@;
    proof {
        assert(stack_pre == old(stack)@);
        assert(stack1 == stack_pre.push(stack1.last()));
        assert(id_views(stack1) =~= id_views(old(stack)@).push(stack1.last()@));
        assert(stack1.last()@ == id@);
        let cov1 = covered(ctx.views(), id_views(stack@));
        assert(cov1 =~= cov0.insert(id@));
        assert(map.has_key(id@));
        assert(keys.contains(id@));
        assert(!cov0.contains(id@));
        keys.lemma_set_insert_diff_decreases(cov0, id@);
        assert(keys.difference(cov1).len() < measure0);
    }

    let mut j: usize = 0;
    let n = imports.len();
    let ghost ctx_entry = ctx.views();
    while j < n
        invariant
            0 <= j <= n,
            n == imports@.len(),
            imports@.len() == parsed.imports@.len(),
            map.wf(),
            stack@ == stack1,
            stack1 == old(stack)@.push(stack1.last()),
            id_views(stack1) == id_views(old(stack)@).push(id@),
            map.has_key(id@),
            map.value_of(id@) == source@,
            parsed_header(source@) is Some,
            parsed_header(source@).unwrap().0 == id@,
            parsed_header(source@).unwrap().1.len() == parsed.imports@.len(),
            forall|jj: int|
                0 <= jj < n ==> #[trigger] parsed.imports@[jj]@ == parsed_header(
                    source@,
                ).unwrap().1[jj],
            forall|jj: int| 0 <= jj < n ==> imports@[jj]@ == #[trigger] parsed.imports@[jj]@,
            ctx.views() == base + plan_ids(plan@),
            plan_ok(plan@, base, map),
            forall|k: Seq<char>|
                id_views(stack1).contains(k) ==> map.has_key(k) && !ctx.has(k),
            forall|k: Seq<char>| ctx_entry.contains(k) ==> ctx.has(k),
            forall|k: Seq<char>| ctx.has(k) ==> ctx_entry.contains(k) || map.has_key(k),
            forall|jj: int| 0 <= jj < j ==> ctx.has(#[trigger] imports@[jj]@),
            ctx_entry == old(ctx).views(),
            keys == map.key_set(),
            measure0 == keys.difference(
                covered(old(ctx).views(), id_views(old(stack)@)),
            ).len(),
            keys.difference(covered(ctx.views(), id_views(stack@))).len() < measure0,
        decreases n - j,
    {
        let ghost ctxv_before = ctx.views();
        let ghost cov_before = covered(ctx.views(), id_views(stack@));
        match visit(ctx, &imports[j], map, stack, plan, Ghost(base)) {
            Ok(()) => {},
            Err(e) => {
                proof {
                    if entries_ordered(map, base) && visitable(
                        map,
                        base,
                        id_views(old(stack)@),
                        id@,
                    ) {
                        if base.contains(id@) {
                            lemma_seq_concat_contains_all_elements(
                                base,
                                plan_ids(plan@),
                                id@,
                            );
                            assert(ctx.has(id@));
                            lemma_seq_contains_after_push(id_views(old(stack)@), id@, id@);
                            assert(id_views(stack1).contains(id@));
                            assert(!ctx.has(id@));
                        } else {
                            map.lemma_index_of(id@);
                            let j0 = map.index_of(id@);
                            assert(entry_ok(map, j0, base));
                            let impv = imports@[j as int]@;
                            assert(impv == parsed.imports@[j as int]@);
                            assert(impv == parsed_header(source@).unwrap().1[j as int]);
                            assert(map.entry_value(j0) == source@);
                            let he = parsed_header(map.entry_value(j0)).unwrap();
                            assert(he.1[j as int] == impv);
                            assert(base.contains(impv) || map.key_views().take(j0).contains(
                                impv,
                            ));
                            if !base.contains(impv) {
                                let i1 = choose|i: int|
                                    0 <= i < map.key_views().take(j0).len() && map.key_views().take(
                                        j0,
                                    )[i] == impv;
                                assert(map.key_views()[i1] == impv);
                                assert(map.has_key(impv));
                                map.lemma_index_of(impv);
                                assert(map.index_of(impv) == i1);
                                assert forall|k: Seq<char>|
                                    id_views(stack1).contains(k) implies map.index_of(k)
                                    > map.index_of(impv) by {
                                    lemma_seq_contains_after_push(
                                        id_views(old(stack)@),
                                        id@,
                                        k,
                                    );
                                    if id_views(old(stack)@).contains(k) {
                                        assert(map.index_of(k) > j0);
                                    } else {
                                        assert(k == id@);
                                    }
                                }
                            }
                            assert(visitable(map, base, id_views(stack1), impv));
                        }
                        assert(false);
                    }
                }
                let _popped = stack.pop();
                proof {
                    assert(stack@ == stack1.drop_last());
                    assert(stack@ =~= old(stack)@);
                    assert forall|k: Seq<char>|
                        id_views(old(stack)@).contains(k) implies !ctx.has(k) by {
                        lemma_seq_contains_after_push(id_views(old(stack)@), id@, k);
                        assert(id_views(stack1).contains(k));
                    }
                }
                return Err(e);
            },
        }
        proof {
            let cov_after = covered(ctx.views(), id_views(stack@));
            assert forall|k: Seq<char>| cov_before.contains(k) implies cov_after.contains(
                k,
            ) by {
                if ctxv_before.contains(k) {
                    assert(ctx.has(k));
                    assert(ctx.views().to_set().contains(k));
                } else {
                    assert(id_views(stack1).contains(k));
                    assert(id_views(stack@).to_set().contains(k));
                }
            }
            assert(cov_before.subset_of(cov_after));
            assert(keys.difference(cov_after).subset_of(keys.difference(cov_before)));
            lemma_len_subset(keys.difference(cov_after), keys.difference(cov_before));
        }
        j += 1;
    }
    let _popped = stack.pop();
    proof {
        assert(stack@ == stack1.drop_last());
        assert(stack@ =~= old(stack)@);
    }
    let ghost plan_before = plan@;
    let ghost ctx_before = ctx.views();
    ctx.insert(id.clone_id());
    plan.push(PlanStep { id: id.clone_id(), source });
    proof {
        assert(plan@.last().id@ == id@);
        assert(plan@.last().source@ == map.value_of(id@));
        assert(plan_ids(plan@) =~= plan_ids(plan_before).push(id@));
        assert(ctx.views() =~= base + plan_ids(plan@));
        // The newly appended step is sound: its imports were all registered
        // by the loop above.
        let step = plan@.last();
        let prior = base + plan_ids(plan@.take(plan@.len() - 1));
        assert(plan@.take(plan@.len() - 1) =~= plan_before);
        assert(prior =~= ctx_before);
        let h = parsed_header(step.source@).unwrap();
        assert(h.0 == id@);
        assert forall|k: int| 0 <= k < h.1.len() implies prior.contains(h.1[k]) by {
            assert(h.1[k] == parsed.imports@[k]@);
            assert(h.1[k] == imports@[k]@);
            assert(ctx_before.contains(imports@[k]@));
        }
        assert(step_ok(step, prior, map));
        assert forall|jj: int| 0 <= jj < plan@.len() implies step_ok(
            #[trigger] plan@[jj],
            base + plan_ids(plan@.take(jj)),
            map,
        ) by {
            if jj < plan@.len() - 1 {
                assert(plan@.take(jj) =~= plan_before.take(jj));
                assert(plan@[jj] == plan_before[jj]);
                assert(step_ok(plan_before[jj], base + plan_ids(plan_before.take(jj)), map));
            }
        }
    }
    Ok(())
}

/// Resolves a program's imports against the context and the supplied import
/// map, and registers the program itself.
///
/// On success, every import of the program — and, transitively, every import
/// of a program registered on the way — is registered, each program only
/// after all of its imports; the returned plan lists the registrations from
/// the import map in that dependency-first order, and the program itself is
/// registered last. On failure, each error pins down its cause: a
/// `MissingImport` identifier is absent from both the prior context and the
/// map, and a `ParseFailure` identifier has an entry that does not parse as
/// a program with that identifier. A registration never slips in from
/// outside the context, the map and the program itself, so resolution fails
/// whenever some import of the program is absent from both.
pub fn resolve(ctx: &mut Context, program: &ProgramMeta, map: &ImportMap) -> (r: Result<
    Vec<PlanStep>,
    ImportError,
>)
    requires
        map.wf(),
    ensures
        forall|k: Seq<char>| old(ctx).has(k) ==> final(ctx).has(k),
        forall|k: Seq<char>|
            final(ctx).has(k) ==> old(ctx).has(k) || map.has_key(k) || k == program.id@,
        r matches Ok(plan) ==> {
            &&& plan_ok(plan@, old(ctx).views(), map)
            &&& final(ctx).has(program.id@)
            &&& forall|i: int|
                0 <= i < program.imports@.len() ==> final(ctx).has(
                    #[trigger] program.imports@[i]@,
                )
            &&& forall|i: int|
                0 <= i < program.imports@.len() ==> old(ctx).has(#[trigger] program.imports@[i]@)
                    || map.has_key(program.imports@[i]@)
        },
        r matches Err(e) ==> match e {
            ImportError::MissingImport(m) => !final(ctx).has(m@) && !map.has_key(m@),
            ImportError::ParseFailure(p) => map.has_key(p@) && !source_ok(
                p@,
                map.value_of(p@),
            ),
            ImportError::CyclicImport(c) => map.has_key(c@),
        },
        (exists|i: int|
            0 <= i < program.imports@.len() && !old(ctx).has(#[trigger] program.imports@[i]@)
                && !map.has_key(program.imports@[i]@)) ==> r is Err,
        entries_ordered(map, old(ctx).views()) && (forall|i: int|
            0 <= i < program.imports@.len() ==> old(ctx).has(#[trigger] program.imports@[i]@)
                || map.has_key(program.imports@[i]@)) ==> r is Ok,
{
    broadcast use lemma_seq_contains_after_push;

    let mut stack: Vec<ProgramId> = Vec::new();
    let mut plan: Vec<PlanStep> = Vec::new();
    let ghost base = ctx.views();
    proof {
        assert(plan_ids(plan@) =~= Seq::<Seq<char>>::empty());
        assert(ctx.views() =~= base + plan_ids(plan@));
        assert(forall|k: Seq<char>| !id_views(stack@).contains(k));
    }
    let mut i: usize = 0;
    let n = program.imports.len();
    while i < n
        invariant
            0 <= i <= n,
            n == program.imports@.len(),
            map.wf(),
            stack@.len() == 0,
            base == old(ctx).views(),
            ctx.views() == base + plan_ids(plan@),
            plan_ok(plan@, base, map),
            forall|k: Seq<char>| base.contains(k) ==> ctx.has(k),
            forall|k: Seq<char>| ctx.has(k) ==> base.contains(k) || map.has_key(k),
            forall|jj: int| 0 <= jj < i ==> ctx.has(#[trigger] program.imports@[jj]@),
            forall|jj: int|
                0 <= jj < i ==> base.contains(#[trigger] program.imports@[jj]@) || map.has_key(
                    program.imports@[jj]@,
                ),
        decreases n - i,
    {
        proof {
            assert(forall|k: Seq<char>| !id_views(stack@).contains(k));
        }
        let ghost stack_at_call = stack@;
        match visit(ctx, &program.imports[i], map, &mut stack, &mut plan, Ghost(base)) {
            Ok(()) => {},
            Err(e) => {
                proof {
                    if entries_ordered(map, base) && (forall|ii: int|
                        0 <= ii < program.imports@.len() ==> base.contains(
                            #[trigger] program.imports@[ii]@,
                        ) || map.has_key(program.imports@[ii]@)) {
                        assert(forall|k: Seq<char>| !id_views(stack_at_call).contains(k));
                        assert(visitable(
                            map,
                            base,
                            id_views(stack_at_call),
                            program.imports@[i as int]@,
                        ));
                        assert(false);
                    }
                }
                return Err(e);
            },
        }
        i += 1;
    }
    if !ctx.contains_id(&program.id) {
        ctx.insert(program.id.clone_id());
        proof {
            assert(ctx.views().last() == program.id@);
        }
    }
    Ok(plan)
}

} // verus!
