//! The orchestrator: holds an ordered list of sources and a list of
//! observers, answers each query by delegating through the chain, and fans
//! every success out to all observers.
//!
//! Each fetch returns, besides the result, a ghost log of the results the
//! consulted sources returned, in order. The contract pins the whole
//! behaviour to that log: the log is a complete chain run, the returned
//! result is [`chain_result`] of the log, and the observers' recorded
//! state is advanced exactly once on success and not at all otherwise.

use vstd::prelude::*;
use crate::models::{
    AutoproxySettings, Group, Member, MemberGuildSettings, Message, Switch, System,
    SystemGuildSettings, SystemSettings,
};
use crate::cache_view::CacheView;
use crate::notifier::Notifier;
use crate::provider::{Provider, ProviderResult};

verus! {

/// A result on which the chain falls through to the next source.
///
/// `Unauthorized` deliberately takes the same fall-through path as
/// `Failed` rather than stopping the chain, so a rejection by one source
/// still lets a later source answer.
pub open spec fn falls_through<T>(r: ProviderResult<T>) -> bool {
    r is Unauthorized || r is Failed
}

/// The outcome of consulting sources in order: the first result that does
/// not fall through, or `Failed` once the chain is exhausted.
pub open spec fn chain_result<T>(results: Seq<ProviderResult<T>>) -> ProviderResult<T>
    decreases results.len(),
{
    if results.len() == 0 {
        ProviderResult::Failed
    } else if !falls_through(results[0]) {
        results[0]
    } else {
        chain_result(results.skip(1))
    }
}

/// `log` records one result per consulted source of a chain of `n`
/// sources: every result but the last falls through, and the run stops
/// early only on a result that does not fall through.
pub open spec fn complete_chain_log<T>(log: Seq<ProviderResult<T>>, n: int) -> bool {
    &&& forall|i: int| 0 <= i < log.len() - 1 ==> falls_through(#[trigger] log[i])
    &&& (log.len() == n || (0 < log.len() <= n && !falls_through(log[log.len() - 1])))
}

/// What the orchestrator does with one source's answer.
pub enum ChainStep<T> {
    /// Hand the value to every observer, in order, then return it.
    Publish(T),
    /// Return this result at once, consulting and notifying nothing else.
    Stop(ProviderResult<T>),
    /// Try the next source.
    Next,
}

/// Decides one step of the fallback chain. A driver that performs the
/// source calls elsewhere can take its decisions from here.
pub fn chain_step<T>(r: ProviderResult<T>) -> (step: ChainStep<T>)
    ensures
        (match r {
            ProviderResult::Success(v) => step matches ChainStep::Publish(w) && w == v,
            ProviderResult::NotFound => step matches ChainStep::Stop(x) && x is NotFound,
            ProviderResult::NotImplemented => step matches ChainStep::Stop(x)
                && x is NotImplemented,
            _ => step is Next && falls_through(r),
        }),
{
    match r {
        ProviderResult::Success(v) => ChainStep::Publish(v),
        ProviderResult::NotFound => ChainStep::Stop(ProviderResult::NotFound),
        ProviderResult::NotImplemented => ChainStep::Stop(ProviderResult::NotImplemented),
        _ => ChainStep::Next,
    }
}

/// The chain stops at the first result that does not fall through.
proof fn lemma_chain_result_stops<T>(log: Seq<ProviderResult<T>>, i: int)
    requires
        0 <= i < log.len(),
        forall|j: int| 0 <= j < i ==> falls_through(#[trigger] log[j]),
        !falls_through(log[i]),
    ensures
        chain_result(log) == log[i],
    decreases i,
{
    if i > 0 {
        let tail = log.skip(1);
        assert forall|j: int| 0 <= j < i - 1 implies falls_through(#[trigger] tail[j]) by {
            assert(tail[j] == log[j + 1]);
        }
        assert(tail[i - 1] == log[i]);
        lemma_chain_result_stops(tail, i - 1);
    }
}

/// A chain in which every result falls through ends in `Failed`.
proof fn lemma_chain_result_exhausted<T>(log: Seq<ProviderResult<T>>)
    requires
        forall|j: int| 0 <= j < log.len() ==> falls_through(#[trigger] log[j]),
    ensures
        chain_result(log) == ProviderResult::<T>::Failed,
    decreases log.len(),
{
    if log.len() > 0 {
        let tail = log.skip(1);
        assert forall|j: int| 0 <= j < tail.len() implies falls_through(#[trigger] tail[j]) by {
            assert(tail[j] == log[j + 1]);
        }
        lemma_chain_result_exhausted(tail);
    }
}

/// Law: if the first source succeeds, the orchestrator returns that very
/// success and consults no further source.
pub proof fn lemma_first_source_success<T>(log: Seq<ProviderResult<T>>, n: int, v: T)
    requires
        complete_chain_log(log, n),
        0 < log.len(),
        log[0] == ProviderResult::Success(v),
    ensures
        chain_result(log) == ProviderResult::Success(v),
        log.len() == 1,
{
    lemma_chain_result_stops(log, 0);
    if log.len() > 1 {
        assert(falls_through(log[0]));
    }
}

/// Law: if the first source reports an authoritative absence, the
/// orchestrator reports it and consults no further source.
pub proof fn lemma_first_source_not_found<T>(log: Seq<ProviderResult<T>>, n: int)
    requires
        complete_chain_log(log, n),
        0 < log.len(),
        log[0] == ProviderResult::<T>::NotFound,
    ensures
        chain_result(log) == ProviderResult::<T>::NotFound,
        log.len() == 1,
{
    lemma_chain_result_stops(log, 0);
    if log.len() > 1 {
        assert(falls_through(log[0]));
    }
}

/// Law: a failure of the first source falls through, and a success of the
/// second is returned as the answer of the chain.
pub proof fn lemma_fallback_then_success<T>(log: Seq<ProviderResult<T>>, n: int, v: T)
    requires
        complete_chain_log(log, n),
        2 <= log.len(),
        log[0] is Failed,
        log[1] == ProviderResult::Success(v),
    ensures
        chain_result(log) == ProviderResult::Success(v),
        log.len() == 2,
{
    lemma_chain_result_stops(log, 1);
    if log.len() > 2 {
        assert(falls_through(log[1]));
    }
}

/// Law: if every source fails, the orchestrator reports `Failed`, after
/// consulting the whole chain.
pub proof fn lemma_all_sources_failed<T>(log: Seq<ProviderResult<T>>, n: int)
    requires
        complete_chain_log(log, n),
        forall|j: int| 0 <= j < log.len() ==> #[trigger] log[j] is Failed,
    ensures
        chain_result(log) == ProviderResult::<T>::Failed,
        log.len() == n,
{
    assert forall|j: int| 0 <= j < log.len() implies falls_through(#[trigger] log[j]) by {
        assert(log[j] is Failed);
    }
    lemma_chain_result_exhausted(log);
    if log.len() != n && log.len() > 0 {
        assert(falls_through(log[log.len() - 1]));
    }
}

fn fan_out_system<N: Notifier>(notifiers: &mut Vec<N>, v: &System)
    ensures
        final(notifiers)@.len() == old(notifiers)@.len(),
        forall|m: int|
            0 <= m < old(notifiers)@.len() ==> final(notifiers)@[m].model() == old(
                notifiers,
            )@[m].model().record_system(*v),
{
    let mut k: usize = 0;
    while k < notifiers.len()
        invariant
            k <= notifiers@.len(),
            notifiers@.len() == old(notifiers)@.len(),
            forall|m: int|
                0 <= m < k ==> notifiers@[m].model() == old(notifiers)@[m].model().record_system(
                    *v,
                ),
            forall|m: int| k <= m < notifiers@.len() ==> notifiers@[m] == old(notifiers)@[m],
        decreases notifiers@.len() - k,
    {
        let nk = &mut notifiers[k];
        nk.notify_system(v);
        k += 1;
    }
}

fn fan_out_system_settings<N: Notifier>(notifiers: &mut Vec<N>, id: &str, v: &SystemSettings)
    ensures
        final(notifiers)@.len() == old(notifiers)@.len(),
        forall|m: int|
            0 <= m < old(notifiers)@.len() ==> final(notifiers)@[m].model() == old(
                notifiers,
            )@[m].model().record_system_settings(id@, *v),
{
    let mut k: usize = 0;
    while k < notifiers.len()
        invariant
            k <= notifiers@.len(),
            notifiers@.len() == old(notifiers)@.len(),
            forall|m: int|
                0 <= m < k ==> notifiers@[m].model() == old(notifiers)@[m].model().record_system_settings(
                    id@, *v,
                ),
            forall|m: int| k <= m < notifiers@.len() ==> notifiers@[m] == old(notifiers)@[m],
        decreases notifiers@.len() - k,
    {
        let nk = &mut notifiers[k];
        nk.notify_system_settings(id, v);
        k += 1;
    }
}

fn fan_out_system_guild_settings<N: Notifier>(notifiers: &mut Vec<N>, id: &str, guild: &str, v: &SystemGuildSettings)
    ensures
        final(notifiers)@.len() == old(notifiers)@.len(),
        forall|m: int|
            0 <= m < old(notifiers)@.len() ==> final(notifiers)@[m].model() == old(
                notifiers,
            )@[m].model().record_system_guild_settings(id@, guild@, *v),
{
    let mut k: usize = 0;
    while k < notifiers.len()
        invariant
            k <= notifiers@.len(),
            notifiers@.len() == old(notifiers)@.len(),
            forall|m: int|
                0 <= m < k ==> notifiers@[m].model() == old(notifiers)@[m].model().record_system_guild_settings(
                    id@, guild@, *v,
                ),
            forall|m: int| k <= m < notifiers@.len() ==> notifiers@[m] == old(notifiers)@[m],
        decreases notifiers@.len() - k,
    {
        let nk = &mut notifiers[k];
        nk.notify_system_guild_settings(id, guild, v);
        k += 1;
    }
}

fn fan_out_system_autoproxy<N: Notifier>(notifiers: &mut Vec<N>, id: &str, v: &AutoproxySettings)
    ensures
        final(notifiers)@.len() == old(notifiers)@.len(),
        forall|m: int|
            0 <= m < old(notifiers)@.len() ==> final(notifiers)@[m].model() == old(
                notifiers,
            )@[m].model().record_system_autoproxy(id@, *v),
{
    let mut k: usize = 0;
    while k < notifiers.len()
        invariant
            k <= notifiers@.len(),
            notifiers@.len() == old(notifiers)@.len(),
            forall|m: int|
                0 <= m < k ==> notifiers@[m].model() == old(notifiers)@[m].model().record_system_autoproxy(
                    id@, *v,
                ),
            forall|m: int| k <= m < notifiers@.len() ==> notifiers@[m] == old(notifiers)@[m],
        decreases notifiers@.len() - k,
    {
        let nk = &mut notifiers[k];
        nk.notify_system_autoproxy(id, v);
        k += 1;
    }
}

fn fan_out_system_members<N: Notifier>(notifiers: &mut Vec<N>, id: &str, v: &Vec<Member>)
    ensures
        final(notifiers)@.len() == old(notifiers)@.len(),
        forall|m: int|
            0 <= m < old(notifiers)@.len() ==> final(notifiers)@[m].model() == old(
                notifiers,
            )@[m].model().record_system_members(id@, v.deep_view()),
{
    let mut k: usize = 0;
    while k < notifiers.len()
        invariant
            k <= notifiers@.len(),
            notifiers@.len() == old(notifiers)@.len(),
            forall|m: int|
                0 <= m < k ==> notifiers@[m].model() == old(notifiers)@[m].model().record_system_members(
                    id@, v.deep_view(),
                ),
            forall|m: int| k <= m < notifiers@.len() ==> notifiers@[m] == old(notifiers)@[m],
        decreases notifiers@.len() - k,
    {
        let nk = &mut notifiers[k];
        nk.notify_system_members(id, v);
        k += 1;
    }
}

fn fan_out_member<N: Notifier>(notifiers: &mut Vec<N>, v: &Member)
    ensures
        final(notifiers)@.len() == old(notifiers)@.len(),
        forall|m: int|
            0 <= m < old(notifiers)@.len() ==> final(notifiers)@[m].model() == old(
                notifiers,
            )@[m].model().record_member(v@),
{
    let mut k: usize = 0;
    while k < notifiers.len()
        invariant
            k <= notifiers@.len(),
            notifiers@.len() == old(notifiers)@.len(),
            forall|m: int|
                0 <= m < k ==> notifiers@[m].model() == old(notifiers)@[m].model().record_member(
                    v@,
                ),
            forall|m: int| k <= m < notifiers@.len() ==> notifiers@[m] == old(notifiers)@[m],
        decreases notifiers@.len() - k,
    {
        let nk = &mut notifiers[k];
        nk.notify_member(v);
        k += 1;
    }
}

fn fan_out_member_groups<N: Notifier>(notifiers: &mut Vec<N>, id: &str, v: &Vec<Group>)
    ensures
        final(notifiers)@.len() == old(notifiers)@.len(),
        forall|m: int|
            0 <= m < old(notifiers)@.len() ==> final(notifiers)@[m].model() == old(
                notifiers,
            )@[m].model().record_member_groups(id@, v.deep_view()),
{
    let mut k: usize = 0;
    while k < notifiers.len()
        invariant
            k <= notifiers@.len(),
            notifiers@.len() == old(notifiers)@.len(),
            forall|m: int|
                0 <= m < k ==> notifiers@[m].model() == old(notifiers)@[m].model().record_member_groups(
                    id@, v.deep_view(),
                ),
            forall|m: int| k <= m < notifiers@.len() ==> notifiers@[m] == old(notifiers)@[m],
        decreases notifiers@.len() - k,
    {
        let nk = &mut notifiers[k];
        nk.notify_member_groups(id, v);
        k += 1;
    }
}

fn fan_out_member_guild_settings<N: Notifier>(notifiers: &mut Vec<N>, id: &str, guild: &str, v: &MemberGuildSettings)
    ensures
        final(notifiers)@.len() == old(notifiers)@.len(),
        forall|m: int|
            0 <= m < old(notifiers)@.len() ==> final(notifiers)@[m].model() == old(
                notifiers,
            )@[m].model().record_member_guild_settings(id@, guild@, *v),
{
    let mut k: usize = 0;
    while k < notifiers.len()
        invariant
            k <= notifiers@.len(),
            notifiers@.len() == old(notifiers)@.len(),
            forall|m: int|
                0 <= m < k ==> notifiers@[m].model() == old(notifiers)@[m].model().record_member_guild_settings(
                    id@, guild@, *v,
                ),
            forall|m: int| k <= m < notifiers@.len() ==> notifiers@[m] == old(notifiers)@[m],
        decreases notifiers@.len() - k,
    {
        let nk = &mut notifiers[k];
        nk.notify_member_guild_settings(id, guild, v);
        k += 1;
    }
}

fn fan_out_system_groups<N: Notifier>(notifiers: &mut Vec<N>, id: &str, v: &Vec<Group>)
    ensures
        final(notifiers)@.len() == old(notifiers)@.len(),
        forall|m: int|
            0 <= m < old(notifiers)@.len() ==> final(notifiers)@[m].model() == old(
                notifiers,
            )@[m].model().record_system_groups(id@, v.deep_view()),
{
    let mut k: usize = 0;
    while k < notifiers.len()
        invariant
            k <= notifiers@.len(),
            notifiers@.len() == old(notifiers)@.len(),
            forall|m: int|
                0 <= m < k ==> notifiers@[m].model() == old(notifiers)@[m].model().record_system_groups(
                    id@, v.deep_view(),
                ),
            forall|m: int| k <= m < notifiers@.len() ==> notifiers@[m] == old(notifiers)@[m],
        decreases notifiers@.len() - k,
    {
        let nk = &mut notifiers[k];
        nk.notify_system_groups(id, v);
        k += 1;
    }
}

fn fan_out_group<N: Notifier>(notifiers: &mut Vec<N>, v: &Group)
    ensures
        final(notifiers)@.len() == old(notifiers)@.len(),
        forall|m: int|
            0 <= m < old(notifiers)@.len() ==> final(notifiers)@[m].model() == old(
                notifiers,
            )@[m].model().record_group(v@),
{
    let mut k: usize = 0;
    while k < notifiers.len()
        invariant
            k <= notifiers@.len(),
            notifiers@.len() == old(notifiers)@.len(),
            forall|m: int|
                0 <= m < k ==> notifiers@[m].model() == old(notifiers)@[m].model().record_group(
                    v@,
                ),
            forall|m: int| k <= m < notifiers@.len() ==> notifiers@[m] == old(notifiers)@[m],
        decreases notifiers@.len() - k,
    {
        let nk = &mut notifiers[k];
        nk.notify_group(v);
        k += 1;
    }
}

fn fan_out_group_members<N: Notifier>(notifiers: &mut Vec<N>, id: &str, v: &Vec<Member>)
    ensures
        final(notifiers)@.len() == old(notifiers)@.len(),
        forall|m: int|
            0 <= m < old(notifiers)@.len() ==> final(notifiers)@[m].model() == old(
                notifiers,
            )@[m].model().record_group_members(id@, v.deep_view()),
{
    let mut k: usize = 0;
    while k < notifiers.len()
        invariant
            k <= notifiers@.len(),
            notifiers@.len() == old(notifiers)@.len(),
            forall|m: int|
                0 <= m < k ==> notifiers@[m].model() == old(notifiers)@[m].model().record_group_members(
                    id@, v.deep_view(),
                ),
            forall|m: int| k <= m < notifiers@.len() ==> notifiers@[m] == old(notifiers)@[m],
        decreases notifiers@.len() - k,
    {
        let nk = &mut notifiers[k];
        nk.notify_group_members(id, v);
        k += 1;
    }
}

fn fan_out_system_switches<N: Notifier>(notifiers: &mut Vec<N>, id: &str, v: &Vec<Switch>)
    ensures
        final(notifiers)@.len() == old(notifiers)@.len(),
        forall|m: int|
            0 <= m < old(notifiers)@.len() ==> final(notifiers)@[m].model() == old(
                notifiers,
            )@[m].model().record_system_switches(id@, v.deep_view()),
{
    let mut k: usize = 0;
    while k < notifiers.len()
        invariant
            k <= notifiers@.len(),
            notifiers@.len() == old(notifiers)@.len(),
            forall|m: int|
                0 <= m < k ==> notifiers@[m].model() == old(notifiers)@[m].model().record_system_switches(
                    id@, v.deep_view(),
                ),
            forall|m: int| k <= m < notifiers@.len() ==> notifiers@[m] == old(notifiers)@[m],
        decreases notifiers@.len() - k,
    {
        let nk = &mut notifiers[k];
        nk.notify_system_switches(id, v);
        k += 1;
    }
}

fn fan_out_system_active_switch<N: Notifier>(notifiers: &mut Vec<N>, id: &str, v: &Switch)
    ensures
        final(notifiers)@.len() == old(notifiers)@.len(),
        forall|m: int|
            0 <= m < old(notifiers)@.len() ==> final(notifiers)@[m].model() == old(
                notifiers,
            )@[m].model().record_system_active_switch(id@, v@),
{
    let mut k: usize = 0;
    while k < notifiers.len()
        invariant
            k <= notifiers@.len(),
            notifiers@.len() == old(notifiers)@.len(),
            forall|m: int|
                0 <= m < k ==> notifiers@[m].model() == old(notifiers)@[m].model().record_system_active_switch(
                    id@, v@,
                ),
            forall|m: int| k <= m < notifiers@.len() ==> notifiers@[m] == old(notifiers)@[m],
        decreases notifiers@.len() - k,
    {
        let nk = &mut notifiers[k];
        nk.notify_system_active_switch(id, v);
        k += 1;
    }
}

fn fan_out_switch<N: Notifier>(notifiers: &mut Vec<N>, id: &str, v: &Switch)
    ensures
        final(notifiers)@.len() == old(notifiers)@.len(),
        forall|m: int|
            0 <= m < old(notifiers)@.len() ==> final(notifiers)@[m].model() == old(
                notifiers,
            )@[m].model().record_switch(id@, v@),
{
    let mut k: usize = 0;
    while k < notifiers.len()
        invariant
            k <= notifiers@.len(),
            notifiers@.len() == old(notifiers)@.len(),
            forall|m: int|
                0 <= m < k ==> notifiers@[m].model() == old(notifiers)@[m].model().record_switch(
                    id@, v@,
                ),
            forall|m: int| k <= m < notifiers@.len() ==> notifiers@[m] == old(notifiers)@[m],
        decreases notifiers@.len() - k,
    {
        let nk = &mut notifiers[k];
        nk.notify_switch(id, v);
        k += 1;
    }
}

fn fan_out_message<N: Notifier>(notifiers: &mut Vec<N>, v: &Message)
    ensures
        final(notifiers)@.len() == old(notifiers)@.len(),
        forall|m: int|
            0 <= m < old(notifiers)@.len() ==> final(notifiers)@[m].model() == old(
                notifiers,
            )@[m].model().record_message(v@),
{
    let mut k: usize = 0;
    while k < notifiers.len()
        invariant
            k <= notifiers@.len(),
            notifiers@.len() == old(notifiers)@.len(),
            forall|m: int|
                0 <= m < k ==> notifiers@[m].model() == old(notifiers)@[m].model().record_message(
                    v@,
                ),
            forall|m: int| k <= m < notifiers@.len() ==> notifiers@[m] == old(notifiers)@[m],
        decreases notifiers@.len() - k,
    {
        let nk = &mut notifiers[k];
        nk.notify_message(v);
        k += 1;
    }
}

/// The orchestrator. Sources are consulted in registration order;
/// observers are notified in registration order.
pub struct Controller<P, N> {
    providers: Vec<P>,
    notifiers: Vec<N>,
}

impl<P: Provider, N: Notifier> Controller<P, N> {
    /// How many sources are registered.
    pub closed spec fn num_providers(&self) -> nat {
        self.providers@.len()
    }

    /// How many observers are registered.
    pub closed spec fn num_notifiers(&self) -> nat {
        self.notifiers@.len()
    }

    /// The abstract recorded state of each observer, in registration order.
    pub closed spec fn notifier_models(&self) -> Seq<CacheView> {
        Seq::new(self.notifiers@.len(), |m: int| self.notifiers@[m].model())
    }

    pub fn new() -> (r: Self)
        ensures
            r.num_providers() == 0,
            r.num_notifiers() == 0,
    {
        Controller { providers: Vec::new(), notifiers: Vec::new() }
    }

    /// Appends a source at the end of the chain.
    pub fn add_provider(&mut self, provider: P)
        ensures
            final(self).num_providers() == old(self).num_providers() + 1,
            final(self).num_notifiers() == old(self).num_notifiers(),
            final(self).notifier_models() == old(self).notifier_models(),
    {
        self.providers.push(provider);
        proof {
            assert(self.notifier_models() =~= old(self).notifier_models());
        }
    }

    /// Grants direct read access to a registered observer.
    pub fn notifier_at(&self, i: usize) -> (r: &N)
        requires
            i < self.num_notifiers(),
        ensures
            r.model() == self.notifier_models()[i as int],
    {
        &self.notifiers[i]
    }

    /// Registers one more observer.
    pub fn add_notifier(&mut self, notifier: N)
        ensures
            final(self).num_providers() == old(self).num_providers(),
            final(self).num_notifiers() == old(self).num_notifiers() + 1,
            final(self).notifier_models() == old(self).notifier_models().push(notifier.model()),
    {
        self.notifiers.push(notifier);
        proof {
            assert(self.notifier_models() =~= old(self).notifier_models().push(
                notifier.model(),
            ));
        }
    }

    pub fn fetch_system(&mut self, id: &str) -> (out: (
        ProviderResult<System>,
        Ghost<Seq<ProviderResult<System>>>,
    ))
        ensures
            final(self).num_providers() == old(self).num_providers(),
            final(self).num_notifiers() == old(self).num_notifiers(),
            complete_chain_log(out.1@, old(self).num_providers() as int),
            out.0 == chain_result(out.1@),
            (match out.0 {
                ProviderResult::Success(v) => forall|m: int|
                    0 <= m < old(self).num_notifiers() ==> final(self).notifier_models()[m] == old(
                        self,
                    ).notifier_models()[m].record_system(v),
                _ => final(self).notifier_models() == old(self).notifier_models(),
            }),
    {
        let ghost mut log: Seq<ProviderResult<System>> = Seq::empty();
        let n = self.providers.len();
        let mut i: usize = 0;
        while i < n
            invariant
                n == self.providers@.len(),
                self.providers@.len() == old(self).providers@.len(),
                self.notifiers == old(self).notifiers,
                i <= n,
                log.len() == i as int,
                forall|j: int| 0 <= j < i ==> falls_through(#[trigger] log[j]),
            decreases n - i,
        {
            let p = &mut self.providers[i];
            let r = p.get_system(id);
            proof {
                log = log.push(r);
            }
            match r {
                ProviderResult::Success(v) => {
                    fan_out_system(&mut self.notifiers, &v);
                    proof {
                        lemma_chain_result_stops(log, i as int);
                        assert forall|m: int| 0 <= m < old(self).num_notifiers() implies self
                            .notifier_models()[m] == old(self).notifier_models()[m].record_system(
                            v,
                        ) by {}
                    }
                    return (ProviderResult::Success(v), Ghost(log));
                },
                ProviderResult::NotFound => {
                    proof {
                        lemma_chain_result_stops(log, i as int);
                        assert(self.notifier_models() =~= old(self).notifier_models());
                    }
                    return (ProviderResult::NotFound, Ghost(log));
                },
                ProviderResult::NotImplemented => {
                    proof {
                        lemma_chain_result_stops(log, i as int);
                        assert(self.notifier_models() =~= old(self).notifier_models());
                    }
                    return (ProviderResult::NotImplemented, Ghost(log));
                },
                _ => {},
            }
            i += 1;
        }
        proof {
            lemma_chain_result_exhausted(log);
            assert(self.notifier_models() =~= old(self).notifier_models());
        }
        (ProviderResult::Failed, Ghost(log))
    }

    pub fn fetch_system_settings(&mut self, id: &str) -> (out: (
        ProviderResult<SystemSettings>,
        Ghost<Seq<ProviderResult<SystemSettings>>>,
    ))
        ensures
            final(self).num_providers() == old(self).num_providers(),
            final(self).num_notifiers() == old(self).num_notifiers(),
            complete_chain_log(out.1@, old(self).num_providers() as int),
            out.0 == chain_result(out.1@),
            (match out.0 {
                ProviderResult::Success(v) => forall|m: int|
                    0 <= m < old(self).num_notifiers() ==> final(self).notifier_models()[m] == old(
                        self,
                    ).notifier_models()[m].record_system_settings(id@, v),
                _ => final(self).notifier_models() == old(self).notifier_models(),
            }),
    {
        let ghost mut log: Seq<ProviderResult<SystemSettings>> = Seq::empty();
        let n = self.providers.len();
        let mut i: usize = 0;
        while i < n
            invariant
                n == self.providers@.len(),
                self.providers@.len() == old(self).providers@.len(),
                self.notifiers == old(self).notifiers,
                i <= n,
                log.len() == i as int,
                forall|j: int| 0 <= j < i ==> falls_through(#[trigger] log[j]),
            decreases n - i,
        {
            let p = &mut self.providers[i];
            let r = p.get_system_settings(id);
            proof {
                log = log.push(r);
            }
            match r {
                ProviderResult::Success(v) => {
                    fan_out_system_settings(&mut self.notifiers, id, &v);
                    proof {
                        lemma_chain_result_stops(log, i as int);
                        assert forall|m: int| 0 <= m < old(self).num_notifiers() implies self
                            .notifier_models()[m] == old(self).notifier_models()[m].record_system_settings(
                            id@, v,
                        ) by {}
                    }
                    return (ProviderResult::Success(v), Ghost(log));
                },
                ProviderResult::NotFound => {
                    proof {
                        lemma_chain_result_stops(log, i as int);
                        assert(self.notifier_models() =~= old(self).notifier_models());
                    }
                    return (ProviderResult::NotFound, Ghost(log));
                },
                ProviderResult::NotImplemented => {
                    proof {
                        lemma_chain_result_stops(log, i as int);
                        assert(self.notifier_models() =~= old(self).notifier_models());
                    }
                    return (ProviderResult::NotImplemented, Ghost(log));
                },
                _ => {},
            }
            i += 1;
        }
        proof {
            lemma_chain_result_exhausted(log);
            assert(self.notifier_models() =~= old(self).notifier_models());
        }
        (ProviderResult::Failed, Ghost(log))
    }

    pub fn fetch_system_guild_settings(&mut self, id: &str, guild: &str) -> (out: (
        ProviderResult<SystemGuildSettings>,
        Ghost<Seq<ProviderResult<SystemGuildSettings>>>,
    ))
        ensures
            final(self).num_providers() == old(self).num_providers(),
            final(self).num_notifiers() == old(self).num_notifiers(),
            complete_chain_log(out.1@, old(self).num_providers() as int),
            out.0 == chain_result(out.1@),
            (match out.0 {
                ProviderResult::Success(v) => forall|m: int|
                    0 <= m < old(self).num_notifiers() ==> final(self).notifier_models()[m] == old(
                        self,
                    ).notifier_models()[m].record_system_guild_settings(id@, guild@, v),
                _ => final(self).notifier_models() == old(self).notifier_models(),
            }),
    {
        let ghost mut log: Seq<ProviderResult<SystemGuildSettings>> = Seq::empty();
        let n = self.providers.len();
        let mut i: usize = 0;
        while i < n
            invariant
                n == self.providers@.len(),
                self.providers@.len() == old(self).providers@.len(),
                self.notifiers == old(self).notifiers,
                i <= n,
                log.len() == i as int,
                forall|j: int| 0 <= j < i ==> falls_through(#[trigger] log[j]),
            decreases n - i,
        {
            let p = &mut self.providers[i];
            let r = p.get_system_guild_settings(id, guild);
            proof {
                log = log.push(r);
            }
            match r {
                ProviderResult::Success(v) => {
                    fan_out_system_guild_settings(&mut self.notifiers, id, guild, &v);
                    proof {
                        lemma_chain_result_stops(log, i as int);
                        assert forall|m: int| 0 <= m < old(self).num_notifiers() implies self
                            .notifier_models()[m] == old(self).notifier_models()[m].record_system_guild_settings(
                            id@, guild@, v,
                        ) by {}
                    }
                    return (ProviderResult::Success(v), Ghost(log));
                },
                ProviderResult::NotFound => {
                    proof {
                        lemma_chain_result_stops(log, i as int);
                        assert(self.notifier_models() =~= old(self).notifier_models());
                    }
                    return (ProviderResult::NotFound, Ghost(log));
                },
                ProviderResult::NotImplemented => {
                    proof {
                        lemma_chain_result_stops(log, i as int);
                        assert(self.notifier_models() =~= old(self).notifier_models());
                    }
                    return (ProviderResult::NotImplemented, Ghost(log));
                },
                _ => {},
            }
            i += 1;
        }
        proof {
            lemma_chain_result_exhausted(log);
            assert(self.notifier_models() =~= old(self).notifier_models());
        }
        (ProviderResult::Failed, Ghost(log))
    }

    pub fn fetch_system_autoproxy(&mut self, id: &str) -> (out: (
        ProviderResult<AutoproxySettings>,
        Ghost<Seq<ProviderResult<AutoproxySettings>>>,
    ))
        ensures
            final(self).num_providers() == old(self).num_providers(),
            final(self).num_notifiers() == old(self).num_notifiers(),
            complete_chain_log(out.1@, old(self).num_providers() as int),
            out.0 == chain_result(out.1@),
            (match out.0 {
                ProviderResult::Success(v) => forall|m: int|
                    0 <= m < old(self).num_notifiers() ==> final(self).notifier_models()[m] == old(
                        self,
                    ).notifier_models()[m].record_system_autoproxy(id@, v),
                _ => final(self).notifier_models() == old(self).notifier_models(),
            }),
    {
        let ghost mut log: Seq<ProviderResult<AutoproxySettings>> = Seq::empty();
        let n = self.providers.len();
        let mut i: usize = 0;
        while i < n
            invariant
                n == self.providers@.len(),
                self.providers@.len() == old(self).providers@.len(),
                self.notifiers == old(self).notifiers,
                i <= n,
                log.len() == i as int,
                forall|j: int| 0 <= j < i ==> falls_through(#[trigger] log[j]),
            decreases n - i,
        {
            let p = &mut self.providers[i];
            let r = p.get_system_autoproxy(id);
            proof {
                log = log.push(r);
            }
            match r {
                ProviderResult::Success(v) => {
                    fan_out_system_autoproxy(&mut self.notifiers, id, &v);
                    proof {
                        lemma_chain_result_stops(log, i as int);
                        assert forall|m: int| 0 <= m < old(self).num_notifiers() implies self
                            .notifier_models()[m] == old(self).notifier_models()[m].record_system_autoproxy(
                            id@, v,
                        ) by {}
                    }
                    return (ProviderResult::Success(v), Ghost(log));
                },
                ProviderResult::NotFound => {
                    proof {
                        lemma_chain_result_stops(log, i as int);
                        assert(self.notifier_models() =~= old(self).notifier_models());
                    }
                    return (ProviderResult::NotFound, Ghost(log));
                },
                ProviderResult::NotImplemented => {
                    proof {
                        lemma_chain_result_stops(log, i as int);
                        assert(self.notifier_models() =~= old(self).notifier_models());
                    }
                    return (ProviderResult::NotImplemented, Ghost(log));
                },
                _ => {},
            }
            i += 1;
        }
        proof {
            lemma_chain_result_exhausted(log);
            assert(self.notifier_models() =~= old(self).notifier_models());
        }
        (ProviderResult::Failed, Ghost(log))
    }

    pub fn fetch_system_members(&mut self, id: &str) -> (out: (
        ProviderResult<Vec<Member>>,
        Ghost<Seq<ProviderResult<Vec<Member>>>>,
    ))
        ensures
            final(self).num_providers() == old(self).num_providers(),
            final(self).num_notifiers() == old(self).num_notifiers(),
            complete_chain_log(out.1@, old(self).num_providers() as int),
            out.0 == chain_result(out.1@),
            (match out.0 {
                ProviderResult::Success(v) => forall|m: int|
                    0 <= m < old(self).num_notifiers() ==> final(self).notifier_models()[m] == old(
                        self,
                    ).notifier_models()[m].record_system_members(id@, v.deep_view()),
                _ => final(self).notifier_models() == old(self).notifier_models(),
            }),
    {
        let ghost mut log: Seq<ProviderResult<Vec<Member>>> = Seq::empty();
        let n = self.providers.len();
        let mut i: usize = 0;
        while i < n
            invariant
                n == self.providers@.len(),
                self.providers@.len() == old(self).providers@.len(),
                self.notifiers == old(self).notifiers,
                i <= n,
                log.len() == i as int,
                forall|j: int| 0 <= j < i ==> falls_through(#[trigger] log[j]),
            decreases n - i,
        {
            let p = &mut self.providers[i];
            let r = p.get_system_members(id);
            proof {
                log = log.push(r);
            }
            match r {
                ProviderResult::Success(v) => {
                    fan_out_system_members(&mut self.notifiers, id, &v);
                    proof {
                        lemma_chain_result_stops(log, i as int);
                        assert forall|m: int| 0 <= m < old(self).num_notifiers() implies self
                            .notifier_models()[m] == old(self).notifier_models()[m].record_system_members(
                            id@, v.deep_view(),
                        ) by {}
                    }
                    return (ProviderResult::Success(v), Ghost(log));
                },
                ProviderResult::NotFound => {
                    proof {
                        lemma_chain_result_stops(log, i as int);
                        assert(self.notifier_models() =~= old(self).notifier_models());
                    }
                    return (ProviderResult::NotFound, Ghost(log));
                },
                ProviderResult::NotImplemented => {
                    proof {
                        lemma_chain_result_stops(log, i as int);
                        assert(self.notifier_models() =~= old(self).notifier_models());
                    }
                    return (ProviderResult::NotImplemented, Ghost(log));
                },
                _ => {},
            }
            i += 1;
        }
        proof {
            lemma_chain_result_exhausted(log);
            assert(self.notifier_models() =~= old(self).notifier_models());
        }
        (ProviderResult::Failed, Ghost(log))
    }

    pub fn fetch_member(&mut self, id: &str) -> (out: (
        ProviderResult<Member>,
        Ghost<Seq<ProviderResult<Member>>>,
    ))
        ensures
            final(self).num_providers() == old(self).num_providers(),
            final(self).num_notifiers() == old(self).num_notifiers(),
            complete_chain_log(out.1@, old(self).num_providers() as int),
            out.0 == chain_result(out.1@),
            (match out.0 {
                ProviderResult::Success(v) => forall|m: int|
                    0 <= m < old(self).num_notifiers() ==> final(self).notifier_models()[m] == old(
                        self,
                    ).notifier_models()[m].record_member(v@),
                _ => final(self).notifier_models() == old(self).notifier_models(),
            }),
    {
        let ghost mut log: Seq<ProviderResult<Member>> = Seq::empty();
        let n = self.providers.len();
        let mut i: usize = 0;
        while i < n
            invariant
                n == self.providers@.len(),
                self.providers@.len() == old(self).providers@.len(),
                self.notifiers == old(self).notifiers,
                i <= n,
                log.len() == i as int,
                forall|j: int| 0 <= j < i ==> falls_through(#[trigger] log[j]),
            decreases n - i,
        {
            let p = &mut self.providers[i];
            let r = p.get_member(id);
            proof {
                log = log.push(r);
            }
            match r {
                ProviderResult::Success(v) => {
                    fan_out_member(&mut self.notifiers, &v);
                    proof {
                        lemma_chain_result_stops(log, i as int);
                        assert forall|m: int| 0 <= m < old(self).num_notifiers() implies self
                            .notifier_models()[m] == old(self).notifier_models()[m].record_member(
                            v@,
                        ) by {}
                    }
                    return (ProviderResult::Success(v), Ghost(log));
                },
                ProviderResult::NotFound => {
                    proof {
                        lemma_chain_result_stops(log, i as int);
                        assert(self.notifier_models() =~= old(self).notifier_models());
                    }
                    return (ProviderResult::NotFound, Ghost(log));
                },
                ProviderResult::NotImplemented => {
                    proof {
                        lemma_chain_result_stops(log, i as int);
                        assert(self.notifier_models() =~= old(self).notifier_models());
                    }
                    return (ProviderResult::NotImplemented, Ghost(log));
                },
                _ => {},
            }
            i += 1;
        }
        proof {
            lemma_chain_result_exhausted(log);
            assert(self.notifier_models() =~= old(self).notifier_models());
        }
        (ProviderResult::Failed, Ghost(log))
    }

    pub fn fetch_member_groups(&mut self, id: &str) -> (out: (
        ProviderResult<Vec<Group>>,
        Ghost<Seq<ProviderResult<Vec<Group>>>>,
    ))
        ensures
            final(self).num_providers() == old(self).num_providers(),
            final(self).num_notifiers() == old(self).num_notifiers(),
            complete_chain_log(out.1@, old(self).num_providers() as int),
            out.0 == chain_result(out.1@),
            (match out.0 {
                ProviderResult::Success(v) => forall|m: int|
                    0 <= m < old(self).num_notifiers() ==> final(self).notifier_models()[m] == old(
                        self,
                    ).notifier_models()[m].record_member_groups(id@, v.deep_view()),
                _ => final(self).notifier_models() == old(self).notifier_models(),
            }),
    {
        let ghost mut log: Seq<ProviderResult<Vec<Group>>> = Seq::empty();
        let n = self.providers.len();
        let mut i: usize = 0;
        while i < n
            invariant
                n == self.providers@.len(),
                self.providers@.len() == old(self).providers@.len(),
                self.notifiers == old(self).notifiers,
                i <= n,
                log.len() == i as int,
                forall|j: int| 0 <= j < i ==> falls_through(#[trigger] log[j]),
            decreases n - i,
        {
            let p = &mut self.providers[i];
            let r = p.get_member_groups(id);
            proof {
                log = log.push(r);
            }
            match r {
                ProviderResult::Success(v) => {
                    fan_out_member_groups(&mut self.notifiers, id, &v);
                    proof {
                        lemma_chain_result_stops(log, i as int);
                        assert forall|m: int| 0 <= m < old(self).num_notifiers() implies self
                            .notifier_models()[m] == old(self).notifier_models()[m].record_member_groups(
                            id@, v.deep_view(),
                        ) by {}
                    }
                    return (ProviderResult::Success(v), Ghost(log));
                },
                ProviderResult::NotFound => {
                    proof {
                        lemma_chain_result_stops(log, i as int);
                        assert(self.notifier_models() =~= old(self).notifier_models());
                    }
                    return (ProviderResult::NotFound, Ghost(log));
                },
                ProviderResult::NotImplemented => {
                    proof {
                        lemma_chain_result_stops(log, i as int);
                        assert(self.notifier_models() =~= old(self).notifier_models());
                    }
                    return (ProviderResult::NotImplemented, Ghost(log));
                },
                _ => {},
            }
            i += 1;
        }
        proof {
            lemma_chain_result_exhausted(log);
            assert(self.notifier_models() =~= old(self).notifier_models());
        }
        (ProviderResult::Failed, Ghost(log))
    }

    pub fn fetch_member_guild_settings(&mut self, id: &str, guild: &str) -> (out: (
        ProviderResult<MemberGuildSettings>,
        Ghost<Seq<ProviderResult<MemberGuildSettings>>>,
    ))
        ensures
            final(self).num_providers() == old(self).num_providers(),
            final(self).num_notifiers() == old(self).num_notifiers(),
            complete_chain_log(out.1@, old(self).num_providers() as int),
            out.0 == chain_result(out.1@),
            (match out.0 {
                ProviderResult::Success(v) => forall|m: int|
                    0 <= m < old(self).num_notifiers() ==> final(self).notifier_models()[m] == old(
                        self,
                    ).notifier_models()[m].record_member_guild_settings(id@, guild@, v),
                _ => final(self).notifier_models() == old(self).notifier_models(),
            }),
    {
        let ghost mut log: Seq<ProviderResult<MemberGuildSettings>> = Seq::empty();
        let n = self.providers.len();
        let mut i: usize = 0;
        while i < n
            invariant
                n == self.providers@.len(),
                self.providers@.len() == old(self).providers@.len(),
                self.notifiers == old(self).notifiers,
                i <= n,
                log.len() == i as int,
                forall|j: int| 0 <= j < i ==> falls_through(#[trigger] log[j]),
            decreases n - i,
        {
            let p = &mut self.providers[i];
            let r = p.get_member_guild_settings(id, guild);
            proof {
                log = log.push(r);
            }
            match r {
                ProviderResult::Success(v) => {
                    fan_out_member_guild_settings(&mut self.notifiers, id, guild, &v);
                    proof {
                        lemma_chain_result_stops(log, i as int);
                        assert forall|m: int| 0 <= m < old(self).num_notifiers() implies self
                            .notifier_models()[m] == old(self).notifier_models()[m].record_member_guild_settings(
                            id@, guild@, v,
                        ) by {}
                    }
                    return (ProviderResult::Success(v), Ghost(log));
                },
                ProviderResult::NotFound => {
                    proof {
                        lemma_chain_result_stops(log, i as int);
                        assert(self.notifier_models() =~= old(self).notifier_models());
                    }
                    return (ProviderResult::NotFound, Ghost(log));
                },
                ProviderResult::NotImplemented => {
                    proof {
                        lemma_chain_result_stops(log, i as int);
                        assert(self.notifier_models() =~= old(self).notifier_models());
                    }
                    return (ProviderResult::NotImplemented, Ghost(log));
                },
                _ => {},
            }
            i += 1;
        }
        proof {
            lemma_chain_result_exhausted(log);
            assert(self.notifier_models() =~= old(self).notifier_models());
        }
        (ProviderResult::Failed, Ghost(log))
    }

    pub fn fetch_system_groups(&mut self, id: &str, with_member: bool) -> (out: (
        ProviderResult<Vec<Group>>,
        Ghost<Seq<ProviderResult<Vec<Group>>>>,
    ))
        ensures
            final(self).num_providers() == old(self).num_providers(),
            final(self).num_notifiers() == old(self).num_notifiers(),
            complete_chain_log(out.1@, old(self).num_providers() as int),
            out.0 == chain_result(out.1@),
            (match out.0 {
                ProviderResult::Success(v) => forall|m: int|
                    0 <= m < old(self).num_notifiers() ==> final(self).notifier_models()[m] == old(
                        self,
                    ).notifier_models()[m].record_system_groups(id@, v.deep_view()),
                _ => final(self).notifier_models() == old(self).notifier_models(),
            }),
    {
        let ghost mut log: Seq<ProviderResult<Vec<Group>>> = Seq::empty();
        let n = self.providers.len();
        let mut i: usize = 0;
        while i < n
            invariant
                n == self.providers@.len(),
                self.providers@.len() == old(self).providers@.len(),
                self.notifiers == old(self).notifiers,
                i <= n,
                log.len() == i as int,
                forall|j: int| 0 <= j < i ==> falls_through(#[trigger] log[j]),
            decreases n - i,
        {
            let p = &mut self.providers[i];
            let r = p.get_system_groups(id, with_member);
            proof {
                log = log.push(r);
            }
            match r {
                ProviderResult::Success(v) => {
                    fan_out_system_groups(&mut self.notifiers, id, &v);
                    proof {
                        lemma_chain_result_stops(log, i as int);
                        assert forall|m: int| 0 <= m < old(self).num_notifiers() implies self
                            .notifier_models()[m] == old(self).notifier_models()[m].record_system_groups(
                            id@, v.deep_view(),
                        ) by {}
                    }
                    return (ProviderResult::Success(v), Ghost(log));
                },
                ProviderResult::NotFound => {
                    proof {
                        lemma_chain_result_stops(log, i as int);
                        assert(self.notifier_models() =~= old(self).notifier_models());
                    }
                    return (ProviderResult::NotFound, Ghost(log));
                },
                ProviderResult::NotImplemented => {
                    proof {
                        lemma_chain_result_stops(log, i as int);
                        assert(self.notifier_models() =~= old(self).notifier_models());
                    }
                    return (ProviderResult::NotImplemented, Ghost(log));
                },
                _ => {},
            }
            i += 1;
        }
        proof {
            lemma_chain_result_exhausted(log);
            assert(self.notifier_models() =~= old(self).notifier_models());
        }
        (ProviderResult::Failed, Ghost(log))
    }

    pub fn fetch_group(&mut self, id: &str) -> (out: (
        ProviderResult<Group>,
        Ghost<Seq<ProviderResult<Group>>>,
    ))
        ensures
            final(self).num_providers() == old(self).num_providers(),
            final(self).num_notifiers() == old(self).num_notifiers(),
            complete_chain_log(out.1@, old(self).num_providers() as int),
            out.0 == chain_result(out.1@),
            (match out.0 {
                ProviderResult::Success(v) => forall|m: int|
                    0 <= m < old(self).num_notifiers() ==> final(self).notifier_models()[m] == old(
                        self,
                    ).notifier_models()[m].record_group(v@),
                _ => final(self).notifier_models() == old(self).notifier_models(),
            }),
    {
        let ghost mut log: Seq<ProviderResult<Group>> = Seq::empty();
        let n = self.providers.len();
        let mut i: usize = 0;
        while i < n
            invariant
                n == self.providers@.len(),
                self.providers@.len() == old(self).providers@.len(),
                self.notifiers == old(self).notifiers,
                i <= n,
                log.len() == i as int,
                forall|j: int| 0 <= j < i ==> falls_through(#[trigger] log[j]),
            decreases n - i,
        {
            let p = &mut self.providers[i];
            let r = p.get_group(id);
            proof {
                log = log.push(r);
            }
            match r {
                ProviderResult::Success(v) => {
                    fan_out_group(&mut self.notifiers, &v);
                    proof {
                        lemma_chain_result_stops(log, i as int);
                        assert forall|m: int| 0 <= m < old(self).num_notifiers() implies self
                            .notifier_models()[m] == old(self).notifier_models()[m].record_group(
                            v@,
                        ) by {}
                    }
                    return (ProviderResult::Success(v), Ghost(log));
                },
                ProviderResult::NotFound => {
                    proof {
                        lemma_chain_result_stops(log, i as int);
                        assert(self.notifier_models() =~= old(self).notifier_models());
                    }
                    return (ProviderResult::NotFound, Ghost(log));
                },
                ProviderResult::NotImplemented => {
                    proof {
                        lemma_chain_result_stops(log, i as int);
                        assert(self.notifier_models() =~= old(self).notifier_models());
                    }
                    return (ProviderResult::NotImplemented, Ghost(log));
                },
                _ => {},
            }
            i += 1;
        }
        proof {
            lemma_chain_result_exhausted(log);
            assert(self.notifier_models() =~= old(self).notifier_models());
        }
        (ProviderResult::Failed, Ghost(log))
    }

    pub fn fetch_group_members(&mut self, id: &str) -> (out: (
        ProviderResult<Vec<Member>>,
        Ghost<Seq<ProviderResult<Vec<Member>>>>,
    ))
        ensures
            final(self).num_providers() == old(self).num_providers(),
            final(self).num_notifiers() == old(self).num_notifiers(),
            complete_chain_log(out.1@, old(self).num_providers() as int),
            out.0 == chain_result(out.1@),
            (match out.0 {
                ProviderResult::Success(v) => forall|m: int|
                    0 <= m < old(self).num_notifiers() ==> final(self).notifier_models()[m] == old(
                        self,
                    ).notifier_models()[m].record_group_members(id@, v.deep_view()),
                _ => final(self).notifier_models() == old(self).notifier_models(),
            }),
    {
        let ghost mut log: Seq<ProviderResult<Vec<Member>>> = Seq::empty();
        let n = self.providers.len();
        let mut i: usize = 0;
        while i < n
            invariant
                n == self.providers@.len(),
                self.providers@.len() == old(self).providers@.len(),
                self.notifiers == old(self).notifiers,
                i <= n,
                log.len() == i as int,
                forall|j: int| 0 <= j < i ==> falls_through(#[trigger] log[j]),
            decreases n - i,
        {
            let p = &mut self.providers[i];
            let r = p.get_group_members(id);
            proof {
                log = log.push(r);
            }
            match r {
                ProviderResult::Success(v) => {
                    fan_out_group_members(&mut self.notifiers, id, &v);
                    proof {
                        lemma_chain_result_stops(log, i as int);
                        assert forall|m: int| 0 <= m < old(self).num_notifiers() implies self
                            .notifier_models()[m] == old(self).notifier_models()[m].record_group_members(
                            id@, v.deep_view(),
                        ) by {}
                    }
                    return (ProviderResult::Success(v), Ghost(log));
                },
                ProviderResult::NotFound => {
                    proof {
                        lemma_chain_result_stops(log, i as int);
                        assert(self.notifier_models() =~= old(self).notifier_models());
                    }
                    return (ProviderResult::NotFound, Ghost(log));
                },
                ProviderResult::NotImplemented => {
                    proof {
                        lemma_chain_result_stops(log, i as int);
                        assert(self.notifier_models() =~= old(self).notifier_models());
                    }
                    return (ProviderResult::NotImplemented, Ghost(log));
                },
                _ => {},
            }
            i += 1;
        }
        proof {
            lemma_chain_result_exhausted(log);
            assert(self.notifier_models() =~= old(self).notifier_models());
        }
        (ProviderResult::Failed, Ghost(log))
    }

    pub fn fetch_system_switches(&mut self, id: &str, before: &str, limit: u64) -> (out: (
        ProviderResult<Vec<Switch>>,
        Ghost<Seq<ProviderResult<Vec<Switch>>>>,
    ))
        ensures
            final(self).num_providers() == old(self).num_providers(),
            final(self).num_notifiers() == old(self).num_notifiers(),
            complete_chain_log(out.1@, old(self).num_providers() as int),
            out.0 == chain_result(out.1@),
            (match out.0 {
                ProviderResult::Success(v) => forall|m: int|
                    0 <= m < old(self).num_notifiers() ==> final(self).notifier_models()[m] == old(
                        self,
                    ).notifier_models()[m].record_system_switches(id@, v.deep_view()),
                _ => final(self).notifier_models() == old(self).notifier_models(),
            }),
    {
        let ghost mut log: Seq<ProviderResult<Vec<Switch>>> = Seq::empty();
        let n = self.providers.len();
        let mut i: usize = 0;
        while i < n
            invariant
                n == self.providers@.len(),
                self.providers@.len() == old(self).providers@.len(),
                self.notifiers == old(self).notifiers,
                i <= n,
                log.len() == i as int,
                forall|j: int| 0 <= j < i ==> falls_through(#[trigger] log[j]),
            decreases n - i,
        {
            let p = &mut self.providers[i];
            let r = p.get_system_switches(id, before, limit);
            proof {
                log = log.push(r);
            }
            match r {
                ProviderResult::Success(v) => {
                    fan_out_system_switches(&mut self.notifiers, id, &v);
                    proof {
                        lemma_chain_result_stops(log, i as int);
                        assert forall|m: int| 0 <= m < old(self).num_notifiers() implies self
                            .notifier_models()[m] == old(self).notifier_models()[m].record_system_switches(
                            id@, v.deep_view(),
                        ) by {}
                    }
                    return (ProviderResult::Success(v), Ghost(log));
                },
                ProviderResult::NotFound => {
                    proof {
                        lemma_chain_result_stops(log, i as int);
                        assert(self.notifier_models() =~= old(self).notifier_models());
                    }
                    return (ProviderResult::NotFound, Ghost(log));
                },
                ProviderResult::NotImplemented => {
                    proof {
                        lemma_chain_result_stops(log, i as int);
                        assert(self.notifier_models() =~= old(self).notifier_models());
                    }
                    return (ProviderResult::NotImplemented, Ghost(log));
                },
                _ => {},
            }
            i += 1;
        }
        proof {
            lemma_chain_result_exhausted(log);
            assert(self.notifier_models() =~= old(self).notifier_models());
        }
        (ProviderResult::Failed, Ghost(log))
    }

    pub fn fetch_system_active_switch(&mut self, id: &str, switch_id: &str) -> (out: (
        ProviderResult<Switch>,
        Ghost<Seq<ProviderResult<Switch>>>,
    ))
        ensures
            final(self).num_providers() == old(self).num_providers(),
            final(self).num_notifiers() == old(self).num_notifiers(),
            complete_chain_log(out.1@, old(self).num_providers() as int),
            out.0 == chain_result(out.1@),
            (match out.0 {
                ProviderResult::Success(v) => forall|m: int|
                    0 <= m < old(self).num_notifiers() ==> final(self).notifier_models()[m] == old(
                        self,
                    ).notifier_models()[m].record_system_active_switch(id@, v@),
                _ => final(self).notifier_models() == old(self).notifier_models(),
            }),
    {
        let ghost mut log: Seq<ProviderResult<Switch>> = Seq::empty();
        let n = self.providers.len();
        let mut i: usize = 0;
        while i < n
            invariant
                n == self.providers@.len(),
                self.providers@.len() == old(self).providers@.len(),
                self.notifiers == old(self).notifiers,
                i <= n,
                log.len() == i as int,
                forall|j: int| 0 <= j < i ==> falls_through(#[trigger] log[j]),
            decreases n - i,
        {
            let p = &mut self.providers[i];
            let r = p.get_system_active_switch(id, switch_id);
            proof {
                log = log.push(r);
            }
            match r {
                ProviderResult::Success(v) => {
                    fan_out_system_active_switch(&mut self.notifiers, id, &v);
                    proof {
                        lemma_chain_result_stops(log, i as int);
                        assert forall|m: int| 0 <= m < old(self).num_notifiers() implies self
                            .notifier_models()[m] == old(self).notifier_models()[m].record_system_active_switch(
                            id@, v@,
                        ) by {}
                    }
                    return (ProviderResult::Success(v), Ghost(log));
                },
                ProviderResult::NotFound => {
                    proof {
                        lemma_chain_result_stops(log, i as int);
                        assert(self.notifier_models() =~= old(self).notifier_models());
                    }
                    return (ProviderResult::NotFound, Ghost(log));
                },
                ProviderResult::NotImplemented => {
                    proof {
                        lemma_chain_result_stops(log, i as int);
                        assert(self.notifier_models() =~= old(self).notifier_models());
                    }
                    return (ProviderResult::NotImplemented, Ghost(log));
                },
                _ => {},
            }
            i += 1;
        }
        proof {
            lemma_chain_result_exhausted(log);
            assert(self.notifier_models() =~= old(self).notifier_models());
        }
        (ProviderResult::Failed, Ghost(log))
    }

    pub fn fetch_switch(&mut self, id: &str, switch_id: &str) -> (out: (
        ProviderResult<Switch>,
        Ghost<Seq<ProviderResult<Switch>>>,
    ))
        ensures
            final(self).num_providers() == old(self).num_providers(),
            final(self).num_notifiers() == old(self).num_notifiers(),
            complete_chain_log(out.1@, old(self).num_providers() as int),
            out.0 == chain_result(out.1@),
            (match out.0 {
                ProviderResult::Success(v) => forall|m: int|
                    0 <= m < old(self).num_notifiers() ==> final(self).notifier_models()[m] == old(
                        self,
                    ).notifier_models()[m].record_switch(id@, v@),
                _ => final(self).notifier_models() == old(self).notifier_models(),
            }),
    {
        let ghost mut log: Seq<ProviderResult<Switch>> = Seq::empty();
        let n = self.providers.len();
        let mut i: usize = 0;
        while i < n
            invariant
                n == self.providers@.len(),
                self.providers@.len() == old(self).providers@.len(),
                self.notifiers == old(self).notifiers,
                i <= n,
                log.len() == i as int,
                forall|j: int| 0 <= j < i ==> falls_through(#[trigger] log[j]),
            decreases n - i,
        {
            let p = &mut self.providers[i];
            let r = p.get_switch(id, switch_id);
            proof {
                log = log.push(r);
            }
            match r {
                ProviderResult::Success(v) => {
                    fan_out_switch(&mut self.notifiers, id, &v);
                    proof {
                        lemma_chain_result_stops(log, i as int);
                        assert forall|m: int| 0 <= m < old(self).num_notifiers() implies self
                            .notifier_models()[m] == old(self).notifier_models()[m].record_switch(
                            id@, v@,
                        ) by {}
                    }
                    return (ProviderResult::Success(v), Ghost(log));
                },
                ProviderResult::NotFound => {
                    proof {
                        lemma_chain_result_stops(log, i as int);
                        assert(self.notifier_models() =~= old(self).notifier_models());
                    }
                    return (ProviderResult::NotFound, Ghost(log));
                },
                ProviderResult::NotImplemented => {
                    proof {
                        lemma_chain_result_stops(log, i as int);
                        assert(self.notifier_models() =~= old(self).notifier_models());
                    }
                    return (ProviderResult::NotImplemented, Ghost(log));
                },
                _ => {},
            }
            i += 1;
        }
        proof {
            lemma_chain_result_exhausted(log);
            assert(self.notifier_models() =~= old(self).notifier_models());
        }
        (ProviderResult::Failed, Ghost(log))
    }

    pub fn fetch_message(&mut self, id: &str) -> (out: (
        ProviderResult<Message>,
        Ghost<Seq<ProviderResult<Message>>>,
    ))
        ensures
            final(self).num_providers() == old(self).num_providers(),
            final(self).num_notifiers() == old(self).num_notifiers(),
            complete_chain_log(out.1@, old(self).num_providers() as int),
            out.0 == chain_result(out.1@),
            (match out.0 {
                ProviderResult::Success(v) => forall|m: int|
                    0 <= m < old(self).num_notifiers() ==> final(self).notifier_models()[m] == old(
                        self,
                    ).notifier_models()[m].record_message(v@),
                _ => final(self).notifier_models() == old(self).notifier_models(),
            }),
    {
        let ghost mut log: Seq<ProviderResult<Message>> = Seq::empty();
        let n = self.providers.len();
        let mut i: usize = 0;
        while i < n
            invariant
                n == self.providers@.len(),
                self.providers@.len() == old(self).providers@.len(),
                self.notifiers == old(self).notifiers,
                i <= n,
                log.len() == i as int,
                forall|j: int| 0 <= j < i ==> falls_through(#[trigger] log[j]),
            decreases n - i,
        {
            let p = &mut self.providers[i];
            let r = p.get_message(id);
            proof {
                log = log.push(r);
            }
            match r {
                ProviderResult::Success(v) => {
                    fan_out_message(&mut self.notifiers, &v);
                    proof {
                        lemma_chain_result_stops(log, i as int);
                        assert forall|m: int| 0 <= m < old(self).num_notifiers() implies self
                            .notifier_models()[m] == old(self).notifier_models()[m].record_message(
                            v@,
                        ) by {}
                    }
                    return (ProviderResult::Success(v), Ghost(log));
                },
                ProviderResult::NotFound => {
                    proof {
                        lemma_chain_result_stops(log, i as int);
                        assert(self.notifier_models() =~= old(self).notifier_models());
                    }
                    return (ProviderResult::NotFound, Ghost(log));
                },
                ProviderResult::NotImplemented => {
                    proof {
                        lemma_chain_result_stops(log, i as int);
                        assert(self.notifier_models() =~= old(self).notifier_models());
                    }
                    return (ProviderResult::NotImplemented, Ghost(log));
                },
                _ => {},
            }
            i += 1;
        }
        proof {
            lemma_chain_result_exhausted(log);
            assert(self.notifier_models() =~= old(self).notifier_models());
        }
        (ProviderResult::Failed, Ghost(log))
    }
}

impl<P: Provider, N: Notifier> Provider for Controller<P, N> {
    fn get_system(&mut self, id: &str) -> ProviderResult<System> {
        self.fetch_system(id).0
    }

    fn get_system_settings(&mut self, id: &str) -> ProviderResult<SystemSettings> {
        self.fetch_system_settings(id).0
    }

    fn get_system_guild_settings(&mut self, id: &str, guild: &str) -> ProviderResult<SystemGuildSettings> {
        self.fetch_system_guild_settings(id, guild).0
    }

    fn get_system_autoproxy(&mut self, id: &str) -> ProviderResult<AutoproxySettings> {
        self.fetch_system_autoproxy(id).0
    }

    fn get_system_members(&mut self, id: &str) -> ProviderResult<Vec<Member>> {
        self.fetch_system_members(id).0
    }

    fn get_member(&mut self, id: &str) -> ProviderResult<Member> {
        self.fetch_member(id).0
    }

    fn get_member_groups(&mut self, id: &str) -> ProviderResult<Vec<Group>> {
        self.fetch_member_groups(id).0
    }

    fn get_member_guild_settings(&mut self, id: &str, guild: &str) -> ProviderResult<MemberGuildSettings> {
        self.fetch_member_guild_settings(id, guild).0
    }

    fn get_system_groups(&mut self, id: &str, with_member: bool) -> ProviderResult<Vec<Group>> {
        self.fetch_system_groups(id, with_member).0
    }

    fn get_group(&mut self, id: &str) -> ProviderResult<Group> {
        self.fetch_group(id).0
    }

    fn get_group_members(&mut self, id: &str) -> ProviderResult<Vec<Member>> {
        self.fetch_group_members(id).0
    }

    fn get_system_switches(&mut self, id: &str, before: &str, limit: u64) -> ProviderResult<Vec<Switch>> {
        self.fetch_system_switches(id, before, limit).0
    }

    fn get_system_active_switch(&mut self, id: &str, switch_id: &str) -> ProviderResult<Switch> {
        self.fetch_system_active_switch(id, switch_id).0
    }

    fn get_switch(&mut self, id: &str, switch_id: &str) -> ProviderResult<Switch> {
        self.fetch_switch(id, switch_id).0
    }

    fn get_message(&mut self, id: &str) -> ProviderResult<Message> {
        self.fetch_message(id).0
    }

}

} // verus!