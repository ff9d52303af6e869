//! Synchronous parser hooks: taps run in the order in which they were registered.
//! A plain hook runs every tap; a bail hook stops at the first tap that answers.
//! A hook map keeps one hook per name and creates it on first use.
use vstd::prelude::*;
use crate::table::StrTable;

verus! {

/// An error reported by a tap.  It stops the hook that ran the tap.
#[derive(Debug)]
pub struct HookError {
    pub message: String,
}

impl View for HookError {
    type V = Seq<char>;

    open spec fn view(&self) -> Seq<char> {
        self.message@
    }
}

/// The failure that a tap of a plain hook reports, if any, seen through its view.
pub open spec fn failure(out: Result<(), HookError>) -> Option<Seq<char>> {
    match out {
        Ok(_) => None,
        Err(e) => Some(e@),
    }
}

/// What a tap of a bail hook reports, seen through views.
pub open spec fn bail_outcome<R: View>(out: Result<Option<R>, HookError>) -> Result<Option<R::V>, Seq<char>> {
    match out {
        Ok(Some(v)) => Ok(Some(v@)),
        Ok(None) => Ok(None),
        Err(e) => Err(e@),
    }
}

/// A tap of a plain hook: it may change the state and may fail.
///
/// A tap type that states what it does gives `spec_run` and says in `obeys_tap_spec` for which
/// taps and arguments `run` follows it; one that keeps the defaults promises nothing.
pub trait SyncTap<S: View, A: View> {
    /// On `args`, `run` behaves as `spec_run` says.
    open spec fn obeys_tap_spec(&self, args: A::V) -> bool {
        false
    }

    /// The state after the tap ran, and its failure, if it failed.
    open spec fn spec_run(&self, state: S::V, args: A::V) -> (S::V, Option<Seq<char>>) {
        vstd::pervasive::arbitrary()
    }

    fn run(&self, state: &mut S, args: &A) -> (out: Result<(), HookError>)
        ensures
            self.obeys_tap_spec(args@) ==> (final(state)@, failure(out)) == self.spec_run(old(state)@, args@),
    ;
}

/// A tap of a bail hook: it may change the state, and it answers (`Some`), passes (`None`) or fails.
///
/// A tap type that states what it does gives `spec_run` and says in `obeys_tap_spec` for which
/// taps and arguments `run` follows it; one that keeps the defaults promises nothing.
pub trait BailTap<S: View, A: View, R: View> {
    /// On `args`, `run` behaves as `spec_run` says.
    open spec fn obeys_tap_spec(&self, args: A::V) -> bool {
        false
    }

    /// The state after the tap ran, and its answer.
    open spec fn spec_run(&self, state: S::V, args: A::V) -> (S::V, Result<Option<R::V>, Seq<char>>) {
        vstd::pervasive::arbitrary()
    }

    fn run(&self, state: &mut S, args: &A) -> (out: Result<Option<R>, HookError>)
        ensures
            self.obeys_tap_spec(args@) ==> (final(state)@, bail_outcome(out)) == self.spec_run(old(state)@, args@),
    ;
}

/// Every tap of a plain hook follows its `spec_run` on `args`.
pub open spec fn sync_taps_obey<S: View, A: View, T: SyncTap<S, A>>(taps: Seq<T>, args: A::V) -> bool {
    forall|i: int| 0 <= i < taps.len() ==> #[trigger] taps[i].obeys_tap_spec(args)
}

/// Every tap of a bail hook follows its `spec_run` on `args`.
pub open spec fn bail_taps_obey<S: View, A: View, R: View, T: BailTap<S, A, R>>(taps: Seq<T>, args: A::V) -> bool {
    forall|i: int| 0 <= i < taps.len() ==> #[trigger] taps[i].obeys_tap_spec(args)
}

/// Running the taps of a plain hook one after the other, stopping at the first failure.
pub open spec fn sync_run<S: View, A: View, T: SyncTap<S, A>>(taps: Seq<T>, state: S::V, args: A::V) -> (S::V, Option<Seq<char>>)
    decreases taps.len(),
{
    if taps.len() == 0 {
        (state, None)
    } else {
        let (next, out) = taps[0].spec_run(state, args);
        if out is None {
            sync_run::<S, A, T>(taps.drop_first(), next, args)
        } else {
            (next, out)
        }
    }
}

/// Running the taps of a bail hook one after the other, stopping at the first answer or failure.
pub open spec fn bail_run<S: View, A: View, R: View, T: BailTap<S, A, R>>(taps: Seq<T>, state: S::V, args: A::V) -> (S::V, Result<Option<R::V>, Seq<char>>)
    decreases taps.len(),
{
    if taps.len() == 0 {
        (state, Ok(None))
    } else {
        let (next, out) = taps[0].spec_run(state, args);
        match out {
            Ok(None) => bail_run::<S, A, R, T>(taps.drop_first(), next, args),
            _ => (next, out),
        }
    }
}

/// A hook whose taps all run, in registration order.
pub struct SyncHook<T> {
    taps: Vec<T>,
}

impl<T> View for SyncHook<T> {
    type V = Seq<T>;

    closed spec fn view(&self) -> Seq<T> {
        self.taps@
    }
}

impl<T> Default for SyncHook<T> {
    fn default() -> (h: Self)
        ensures
            h@ == Seq::<T>::empty(),
    {
        SyncHook { taps: Vec::new() }
    }
}

impl<T> SyncHook<T> {
    pub fn new() -> (h: Self)
        ensures
            h@ == Seq::<T>::empty(),
    {
        SyncHook { taps: Vec::new() }
    }

    /// Registers a tap after those already registered.
    pub fn tap(&mut self, tap: T)
        ensures
            final(self)@ == old(self)@.push(tap),
    {
        self.taps.push(tap);
    }

    /// Runs every tap in registration order; the first failure stops the run and is returned.
    pub fn call<S: View, A: View>(&self, state: &mut S, args: &A) -> (out: Result<(), HookError>)
        where
            T: SyncTap<S, A>,
        ensures
            sync_taps_obey::<S, A, T>(self@, args@) ==> (final(state)@, failure(out)) == sync_run::<S, A, T>(self@, old(state)@, args@),
    {
        let mut i: usize = 0;
        assert(self.taps@.skip(0) =~= self.taps@);
        while i < self.taps.len()
            invariant
                i <= self.taps.len(),
                sync_taps_obey::<S, A, T>(self.taps@, args@) ==> sync_run::<S, A, T>(self.taps@, old(state)@, args@) == sync_run::<S, A, T>(
                    self.taps@.skip(i as int),
                    state@,
                    args@,
                ),
            decreases self.taps.len() - i,
        {
            assert(self.taps@.skip(i as int).drop_first() =~= self.taps@.skip(i + 1));
            assert(sync_taps_obey::<S, A, T>(self.taps@, args@) ==> self.taps@[i as int].obeys_tap_spec(args@));
            let out = self.taps[i].run(state, args);
            match out {
                Ok(()) => {},
                Err(e) => {
                    return Err(e);
                },
            }
            i += 1;
        }
        assert(self.taps@.skip(i as int) =~= Seq::<T>::empty());
        Ok(())
    }
}

/// A hook whose taps run in registration order until one of them answers.
pub struct SyncBailHook<T> {
    taps: Vec<T>,
}

impl<T> View for SyncBailHook<T> {
    type V = Seq<T>;

    closed spec fn view(&self) -> Seq<T> {
        self.taps@
    }
}

impl<T> Default for SyncBailHook<T> {
    fn default() -> (h: Self)
        ensures
            h@ == Seq::<T>::empty(),
    {
        SyncBailHook { taps: Vec::new() }
    }
}

impl<T> SyncBailHook<T> {
    pub fn new() -> (h: Self)
        ensures
            h@ == Seq::<T>::empty(),
    {
        SyncBailHook { taps: Vec::new() }
    }

    /// Registers a tap after those already registered.
    pub fn tap(&mut self, tap: T)
        ensures
            final(self)@ == old(self)@.push(tap),
    {
        self.taps.push(tap);
    }

    /// Runs the taps in registration order and returns the first answer; taps after it do not run.
    /// A failure stops the run and is returned.  With no answer the result is `Ok(None)`.
    pub fn call<S: View, A: View, R: View>(&self, state: &mut S, args: &A) -> (out: Result<Option<R>, HookError>)
        where
            T: BailTap<S, A, R>,
        ensures
            bail_taps_obey::<S, A, R, T>(self@, args@) ==> (final(state)@, bail_outcome(out)) == bail_run::<S, A, R, T>(self@, old(state)@, args@),
    {
        let mut i: usize = 0;
        assert(self.taps@.skip(0) =~= self.taps@);
        while i < self.taps.len()
            invariant
                i <= self.taps.len(),
                bail_taps_obey::<S, A, R, T>(self.taps@, args@) ==> bail_run::<S, A, R, T>(self.taps@, old(state)@, args@) == bail_run::<S, A, R, T>(
                    self.taps@.skip(i as int),
                    state@,
                    args@,
                ),
            decreases self.taps.len() - i,
        {
            assert(self.taps@.skip(i as int).drop_first() =~= self.taps@.skip(i + 1));
            assert(bail_taps_obey::<S, A, R, T>(self.taps@, args@) ==> self.taps@[i as int].obeys_tap_spec(args@));
            let out = self.taps[i].run(state, args);
            match out {
                Ok(None) => {},
                Ok(Some(v)) => {
                    return Ok(Some(v));
                },
                Err(e) => {
                    return Err(e);
                },
            }
            i += 1;
        }
        assert(self.taps@.skip(i as int) =~= Seq::<T>::empty());
        Ok(None)
    }
}

/// Hooks by name.  A hook exists for a name once `for` was asked for it.
pub struct HookMap<H> {
    table: StrTable<H>,
}

impl<H: View> View for HookMap<H> {
    type V = Map<Seq<char>, H::V>;

    open spec fn view(&self) -> Map<Seq<char>, H::V> {
        self.table_entries().map_values(|h: H| h@)
    }
}

impl<H> HookMap<H> {
    pub closed spec fn wf(&self) -> bool {
        self.table.wf()
    }

    /// The names that have a hook, in the order in which their hooks were created.
    pub closed spec fn names(&self) -> Seq<Seq<char>> {
        self.table.key_order()
    }
}

impl<H> Default for HookMap<H> {
    fn default() -> (m: Self)
        ensures
            m.wf(),
            m.names() == Seq::<Seq<char>>::empty(),
            m.table_entries() == Map::<Seq<char>, H>::empty(),
    {
        HookMap { table: StrTable::new() }
    }
}

impl<H> HookMap<H> {
    pub closed spec fn table_entries(&self) -> Map<Seq<char>, H> {
        self.table.entries()
    }

    pub fn new() -> (m: Self)
        ensures
            m.wf(),
            m.names() == Seq::<Seq<char>>::empty(),
            m.table_entries() == Map::<Seq<char>, H>::empty(),
    {
        HookMap { table: StrTable::new() }
    }

    /// The hook for `key`, if one was created.
    pub fn get(&self, key: &str) -> (r: Option<&H>)
        requires
            self.wf(),
        ensures
            r == (if self.table_entries().contains_key(key@) {
                Some(&self.table_entries()[key@])
            } else {
                None::<&H>
            }),
    {
        self.table.get(key)
    }

    /// Number of names that have a hook.
    pub fn len(&self) -> (n: usize)
        requires
            self.wf(),
        ensures
            n == self.names().len(),
    {
        self.table.len()
    }

    /// The hook for `key`; an empty hook is created for it first when there is none.
    pub fn for_key(&mut self, key: &str) -> (h: &mut H)
        where
            H: Default,
        requires
            old(self).wf(),
        ensures
            final(self).wf(),
            old(self).table_entries().contains_key(key@) ==> *h == old(self).table_entries()[key@],
            !old(self).table_entries().contains_key(key@) ==> call_ensures(H::default, (), *h),
            final(self).table_entries() == old(self).table_entries().insert(key@, *final(h)),
            final(self).names() == (if old(self).table_entries().contains_key(key@) {
                old(self).names()
            } else {
                old(self).names().push(key@)
            }),
    {
        self.table.entry_or_default(key)
    }
}

/// The taps registered for `key`; none when the name has no hook.
pub open spec fn taps_at<T>(m: Map<Seq<char>, Seq<T>>, key: Seq<char>) -> Seq<T> {
    if m.contains_key(key) {
        m[key]
    } else {
        Seq::empty()
    }
}

/// The hooks by name after `tap` was registered for `key`.
pub open spec fn registered<T>(m: Map<Seq<char>, Seq<T>>, key: Seq<char>, tap: T) -> Map<Seq<char>, Seq<T>> {
    m.insert(key, taps_at(m, key).push(tap))
}

/// The hooks by name after `tap` was registered for each key of `keys`, in order.
pub open spec fn register_all<T>(m: Map<Seq<char>, Seq<T>>, keys: Seq<Seq<char>>, tap: T) -> Map<Seq<char>, Seq<T>>
    decreases keys.len(),
{
    if keys.len() == 0 {
        m
    } else {
        registered(register_all(m, keys.drop_last(), tap), keys.last(), tap)
    }
}

impl<T> HookMap<SyncBailHook<T>> {
    /// Registers `tap` on the hook for `key`, creating the hook when there is none.
    pub fn tap_for(&mut self, key: &str, tap: T)
        requires
            old(self).wf(),
        ensures
            final(self).wf(),
            final(self)@ == registered(old(self)@, key@, tap),
            final(self).names() == (if old(self)@.contains_key(key@) {
                old(self).names()
            } else {
                old(self).names().push(key@)
            }),
    {
        let ghost had = old(self).table.entries().contains_key(key@);
        let h = self.for_key(key);
        h.tap(tap);
        proof {
            if !had {
                assert(self.table.entries()[key@]@ == Seq::<T>::empty().push(tap));
            }
            assert(self@ =~= registered(old(self)@, key@, tap));
        }
    }
}



/// Running the taps of two plain hooks one after the other is running the first, then the
/// second from where the first left the state, unless the first failed.
pub proof fn lemma_sync_run_concat<S: View, A: View, T: SyncTap<S, A>>(first: Seq<T>, second: Seq<T>, state: S::V, args: A::V)
    ensures
        sync_run::<S, A, T>(first + second, state, args) == ({
            let (s1, r1) = sync_run::<S, A, T>(first, state, args);
            if r1 is None {
                sync_run::<S, A, T>(second, s1, args)
            } else {
                (s1, r1)
            }
        }),
    decreases first.len(),
{
    if first.len() == 0 {
        assert(first + second =~= second);
    } else {
        assert((first + second)[0] == first[0]);
        assert((first + second).drop_first() =~= first.drop_first() + second);
        let (next, out) = first[0].spec_run(state, args);
        lemma_sync_run_concat::<S, A, T>(first.drop_first(), second, next, args);
    }
}

/// A tap registered after the others runs after all of them, and only when none failed.
pub proof fn lemma_sync_run_push<S: View, A: View, T: SyncTap<S, A>>(taps: Seq<T>, tap: T, state: S::V, args: A::V)
    ensures
        sync_run::<S, A, T>(taps.push(tap), state, args) == ({
            let (s1, r1) = sync_run::<S, A, T>(taps, state, args);
            if r1 is None {
                tap.spec_run(s1, args)
            } else {
                (s1, r1)
            }
        }),
{
    lemma_sync_run_concat::<S, A, T>(taps, seq![tap], state, args);
    assert(taps + seq![tap] =~= taps.push(tap));
    let (s1, r1) = sync_run::<S, A, T>(taps, state, args);
    assert(seq![tap].drop_first() =~= Seq::<T>::empty());
    assert(seq![tap][0] == tap);
    let (s2, r2) = tap.spec_run(s1, args);
    assert(sync_run::<S, A, T>(Seq::<T>::empty(), s2, args) == (s2, None::<Seq<char>>));
    assert(seq![tap].len() == 1);
    assert(sync_run::<S, A, T>(seq![tap], s1, args) == (s2, r2));
}

/// Running the taps of two bail hooks one after the other is running the first, then the
/// second from where the first left the state, unless the first answered or failed: then the
/// second runs not at all.
pub proof fn lemma_bail_run_concat<S: View, A: View, R: View, T: BailTap<S, A, R>>(first: Seq<T>, second: Seq<T>, state: S::V, args: A::V)
    ensures
        bail_run::<S, A, R, T>(first + second, state, args) == ({
            let (s1, r1) = bail_run::<S, A, R, T>(first, state, args);
            match r1 {
                Ok(None) => bail_run::<S, A, R, T>(second, s1, args),
                _ => (s1, r1),
            }
        }),
    decreases first.len(),
{
    if first.len() == 0 {
        assert(first + second =~= second);
    } else {
        assert((first + second)[0] == first[0]);
        assert((first + second).drop_first() =~= first.drop_first() + second);
        let (next, out) = first[0].spec_run(state, args);
        lemma_bail_run_concat::<S, A, R, T>(first.drop_first(), second, next, args);
    }
}

/// A tap registered after the others runs only when none of them answered or failed, and
/// then its answer is the hook's answer.
pub proof fn lemma_bail_run_push<S: View, A: View, R: View, T: BailTap<S, A, R>>(taps: Seq<T>, tap: T, state: S::V, args: A::V)
    ensures
        bail_run::<S, A, R, T>(taps.push(tap), state, args) == ({
            let (s1, r1) = bail_run::<S, A, R, T>(taps, state, args);
            match r1 {
                Ok(None) => tap.spec_run(s1, args),
                _ => (s1, r1),
            }
        }),
{
    lemma_bail_run_concat::<S, A, R, T>(taps, seq![tap], state, args);
    assert(taps + seq![tap] =~= taps.push(tap));
    assert(seq![tap].drop_first() =~= Seq::<T>::empty());
    assert(seq![tap][0] == tap);
    let (s1, r1) = bail_run::<S, A, R, T>(taps, state, args);
    let (s2, r2) = tap.spec_run(s1, args);
    assert(bail_run::<S, A, R, T>(Seq::<T>::empty(), s2, args) == (s2, Ok::<Option<R::V>, Seq<char>>(None)));
}

/// When no tap can fail, a bail hook does not fail.
pub proof fn lemma_bail_run_ok<S: View, A: View, R: View, T: BailTap<S, A, R>>(taps: Seq<T>, state: S::V, args: A::V)
    requires
        forall|i: int, s: S::V| 0 <= i < taps.len() ==> (#[trigger] taps[i].spec_run(s, args)).1 is Ok,
    ensures
        bail_run::<S, A, R, T>(taps, state, args).1 is Ok,
    decreases taps.len(),
{
    if taps.len() > 0 {
        let (next, out) = taps[0].spec_run(state, args);
        assert forall|i: int, s: S::V| 0 <= i < taps.drop_first().len() implies (#[trigger] taps.drop_first()[i].spec_run(s, args)).1 is Ok by {
            assert(taps.drop_first()[i] == taps[i + 1]);
        }
        lemma_bail_run_ok::<S, A, R, T>(taps.drop_first(), next, args);
    }
}

/// Registering keeps the taps of every other name.
pub proof fn lemma_registered_other_key<T>(m: Map<Seq<char>, Seq<T>>, key: Seq<char>, tap: T, other: Seq<char>)
    requires
        other != key,
    ensures
        taps_at(registered(m, key, tap), other) == taps_at(m, other),
        registered(m, key, tap).contains_key(other) == m.contains_key(other),
{
}

/// Registering on `keys` that hold no name twice adds exactly one tap for each of them, after
/// the taps they had, and keeps the taps of every other name.
pub proof fn lemma_register_all_distinct<T>(m: Map<Seq<char>, Seq<T>>, keys: Seq<Seq<char>>, tap: T, k: Seq<char>)
    requires
        forall|i: int, j: int| 0 <= i < j < keys.len() ==> keys[i] != keys[j],
    ensures
        taps_at(register_all(m, keys, tap), k) == (if keys.contains(k) {
            taps_at(m, k).push(tap)
        } else {
            taps_at(m, k)
        }),
    decreases keys.len(),
{
    if keys.len() > 0 {
        let init = keys.drop_last();
        assert forall|i: int, j: int| 0 <= i < j < init.len() implies init[i] != init[j] by {
            assert(init[i] == keys[i] && init[j] == keys[j]);
        }
        lemma_register_all_distinct(m, init, tap, k);
        if k == keys.last() {
            assert(keys.contains(k));
            if init.contains(k) {
                let i = choose|i: int| 0 <= i < init.len() && init[i] == k;
                assert(keys[i] == keys[keys.len() - 1]);
            }
        } else {
            if keys.contains(k) {
                let i = choose|i: int| 0 <= i < keys.len() && keys[i] == k;
                assert(init[i] == k);
            }
            if init.contains(k) {
                let i = choose|i: int| 0 <= i < init.len() && init[i] == k;
                assert(keys[i] == k);
            }
        }
    }
}

} // verus!
