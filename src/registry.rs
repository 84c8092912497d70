use vstd::prelude::*;

verus! {

#[verifier::external_type_specification]
#[verifier::external_body]
#[verifier::reject_recursive_types(K)]
#[verifier::reject_recursive_types(S)]
pub struct ExDashSet<K, S>(dashmap::DashSet<K, S>);

/// The channel ids held by a `DashSet`.
pub uninterp spec fn dash_contents(s: dashmap::DashSet<String>) -> Set<Seq<char>>;

/// Relies on `DashSet::new`: a new set is empty.
#[verifier::external_body]
fn dash_new() -> (r: dashmap::DashSet<String>)
    ensures
        dash_contents(r) == Set::<Seq<char>>::empty(),
{
    dashmap::DashSet::new()
}

/// Relies on `DashSet::insert`: adds the key, and returns whether it was absent.
#[verifier::external_body]
fn dash_insert(s: &mut dashmap::DashSet<String>, key: String) -> (r: bool)
    ensures
        dash_contents(*final(s)) == dash_contents(*old(s)).insert(key@),
        r == !dash_contents(*old(s)).contains(key@),
{
    s.insert(key)
}

/// Relies on `DashSet::remove`: takes the key out, if it was there.
#[verifier::external_body]
fn dash_remove(s: &mut dashmap::DashSet<String>, key: &str) -> (r: bool)
    ensures
        dash_contents(*final(s)) == dash_contents(*old(s)).remove(key@),
        r == dash_contents(*old(s)).contains(key@),
{
    s.remove(key).is_some()
}

/// Relies on `DashSet::contains`: whether the key is in the set.
#[verifier::external_body]
fn dash_contains(s: &dashmap::DashSet<String>, key: &str) -> (r: bool)
    ensures
        r == dash_contents(*s).contains(key@),
{
    s.contains(key)
}

/// Relies on `DashSet::len`: the number of keys in the set.
#[verifier::external_body]
fn dash_len(s: &dashmap::DashSet<String>) -> (r: usize)
    ensures
        r as int == dash_contents(*s).len(),
{
    s.len()
}

/// The set of channel ids that currently have a running chat session.
///
/// Each operation is one atomic step on the set: a caller that shares the
/// registry between tasks serialises the steps, and the contracts below
/// describe any such order of steps.
pub struct ChannelRegistry {
    ids: dashmap::DashSet<String>,
}

/// The registry after an acquire attempt on `id`.
pub open spec fn acquired(s: Set<Seq<char>>, id: Seq<char>) -> Set<Seq<char>> {
    s.insert(id)
}

/// Whether an acquire attempt on `id` succeeds.
pub open spec fn acquire_wins(s: Set<Seq<char>>, id: Seq<char>) -> bool {
    !s.contains(id)
}

/// The registry after a release of `id`.
pub open spec fn released(s: Set<Seq<char>>, id: Seq<char>) -> Set<Seq<char>> {
    s.remove(id)
}

/// The results of `n` acquire attempts on `id`, one after another, from `s`.
pub open spec fn acquire_results(s: Set<Seq<char>>, id: Seq<char>, n: nat) -> Seq<bool>
    decreases n,
{
    if n == 0 {
        Seq::empty()
    } else {
        seq![acquire_wins(s, id)].add(acquire_results(acquired(s, id), id, (n - 1) as nat))
    }
}

impl View for ChannelRegistry {
    type V = Set<Seq<char>>;

    closed spec fn view(&self) -> Set<Seq<char>> {
        dash_contents(self.ids)
    }
}

impl ChannelRegistry {
    /// An empty registry.
    pub fn new() -> (r: ChannelRegistry)
        ensures
            r@ == Set::<Seq<char>>::empty(),
    {
        ChannelRegistry { ids: dash_new() }
    }

    /// Inserts `channel_id` if it is absent; true exactly when it was absent.
    pub fn try_acquire(&mut self, channel_id: &str) -> (r: bool)
        ensures
            r == acquire_wins(old(self)@, channel_id@),
            final(self)@ == acquired(old(self)@, channel_id@),
    {
        let key = channel_id.to_string();
        dash_insert(&mut self.ids, key)
    }

    /// Removes `channel_id`; removing an absent id changes nothing.
    pub fn release(&mut self, channel_id: &str)
        ensures
            final(self)@ == released(old(self)@, channel_id@),
    {
        let _ = dash_remove(&mut self.ids, channel_id);
    }

    /// Whether `channel_id` has a running session.
    pub fn contains(&self, channel_id: &str) -> (r: bool)
        ensures
            r == self@.contains(channel_id@),
    {
        dash_contains(&self.ids, channel_id)
    }

    /// The number of channels with a running session.
    pub fn len(&self) -> (r: usize)
        ensures
            r as int == self@.len(),
    {
        dash_len(&self.ids)
    }
}

/// Of any run of acquire attempts on one id, at most the first succeeds, and
/// it succeeds exactly when the id was absent: when it was absent, exactly one
/// attempt returns true. Every attempt after the first leaves the registry
/// as the first left it.
pub proof fn lemma_acquire_exclusive(s: Set<Seq<char>>, id: Seq<char>, n: nat)
    ensures
        acquire_results(s, id, n).len() == n,
        acquired(acquired(s, id), id) == acquired(s, id),
        forall|i: int|
            0 <= i < n ==> #[trigger] acquire_results(s, id, n)[i] == (i == 0 && !s.contains(id)),
    decreases n,
{
    assert(acquired(acquired(s, id), id) =~= acquired(s, id));
    if n > 0 {
        let t = acquired(s, id);
        lemma_acquire_exclusive(t, id, (n - 1) as nat);
        assert(t.contains(id));
        let rest = acquire_results(t, id, (n - 1) as nat);
        assert forall|i: int| 0 <= i < n implies #[trigger] acquire_results(s, id, n)[i] == (i == 0
            && !s.contains(id)) by {
            if i > 0 {
                assert(acquire_results(s, id, n)[i] == rest[i - 1]);
            }
        }
    }
}

/// Releasing an id twice leaves the registry as releasing it once.
pub proof fn lemma_release_idempotent(s: Set<Seq<char>>, id: Seq<char>)
    ensures
        released(released(s, id), id) == released(s, id),
{
    assert(released(released(s, id), id) =~= released(s, id));
}

} // verus!
