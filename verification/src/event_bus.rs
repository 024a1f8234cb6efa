use vstd::prelude::*;

verus! {

/// One topic's entry: the topic's name and its subscribed listeners, as
/// the identifiers the bus handed out, in subscription order.
pub type TopicEntry = (Seq<char>, Seq<usize>);

/// Whether some entry in `es` carries the topic `t`.
pub open spec fn holds_topic(es: Seq<TopicEntry>, t: Seq<char>) -> bool {
    exists|i: int| 0 <= i < es.len() && es[i].0 == t
}

/// The topic-to-listener registry of the event bus.
///
/// The bus decides routing: subscribing registers a listener under a
/// topic and hands back the listener's identifier; publishing to a topic
/// yields the identifiers to notify, in subscription order. Invoking the
/// listeners behind the identifiers is the caller's affair.
pub struct EventBus {
    topics: Vec<String>,
    listeners: Vec<Vec<usize>>,
    issued: usize,
}

impl EventBus {
    /// The registry's entries: one per topic, in first-subscription
    /// order.
    pub closed spec fn entries(&self) -> Seq<TopicEntry> {
        Seq::new(self.topics@.len(), |i: int| (self.topics@[i]@, self.listeners@[i]@))
    }

    /// How many listener identifiers the bus has handed out.
    pub closed spec fn issued_spec(&self) -> int {
        self.issued as int
    }

    /// Topics are listed once each, each with its own listener list.
    pub closed spec fn wf(&self) -> bool {
        &&& self.topics@.len() == self.listeners@.len()
        &&& forall|i: int, j: int|
            0 <= i < j < self.entries().len() ==> (#[trigger] self.entries()[i]).0 != (
            #[trigger] self.entries()[j]).0
    }

    /// Creates a bus with no topics and no listeners.
    pub fn new() -> (r: EventBus)
        ensures
            r.entries() == Seq::<TopicEntry>::empty(),
            r.issued_spec() == 0,
            r.wf(),
    {
        let r = EventBus { topics: Vec::new(), listeners: Vec::new(), issued: 0 };
        proof {
            assert(r.entries() =~= Seq::<TopicEntry>::empty());
        }
        r
    }

    /// Registers a new listener under `topic` and hands back its
    /// identifier. Listeners of a topic are notified of events published
    /// on that topic, in subscription order.
    pub fn add_subscriber(&mut self, topic: &str) -> (id: usize)
        requires
            old(self).wf(),
            old(self).issued_spec() < usize::MAX,
        ensures
            final(self).wf(),
            id == old(self).issued_spec(),
            final(self).issued_spec() == old(self).issued_spec() + 1,
            holds_topic(old(self).entries(), topic@) ==> {
                &&& final(self).entries().len() == old(self).entries().len()
                &&& exists|i: int|
                    {
                        &&& 0 <= i < old(self).entries().len()
                        &&& (#[trigger] old(self).entries()[i]).0 == topic@
                        &&& final(self).entries()[i] == (topic@, old(self).entries()[i].1.push(
                            id,
                        ))
                        &&& forall|j: int|
                            0 <= j < old(self).entries().len() && j != i
                                ==> final(self).entries()[j] == old(self).entries()[j]
                    }
            },
            !holds_topic(old(self).entries(), topic@)
                ==> final(self).entries() == old(self).entries().push(
                (topic@, seq![id as usize]),
            ),
    {
        let id = self.issued;
        self.issued = self.issued + 1;
        let mut j: usize = 0;
        while j < self.topics.len()
            invariant
                old(self).wf(),
                self.topics@.len() == self.listeners@.len(),
                self.entries() == old(self).entries(),
                id as int == old(self).issued_spec(),
                self.issued_spec() == old(self).issued_spec() + 1,
                j <= self.topics@.len(),
                forall|i: int| 0 <= i < j ==> (#[trigger] self.entries()[i]).0 != topic@,
            decreases self.topics@.len() - j,
        {
            if self.topics[j].as_str().eq(topic) {
                let ghost w = j as int;
                let ghost pre = self.entries();
                let slot = &mut self.listeners[j];
                slot.push(id);
                proof {
                    assert(pre[w].0 == topic@);
                    assert(self.entries() =~= pre.update(w, (topic@, pre[w].1.push(id as usize))));
                    assert(holds_topic(old(self).entries(), topic@));
                }
                return id;
            }
            j = j + 1;
        }
        let ghost pre = self.entries();
        self.topics.push(topic.to_owned());
        let mut fresh: Vec<usize> = Vec::new();
        fresh.push(id);
        self.listeners.push(fresh);
        proof {
            assert(!holds_topic(pre, topic@));
            assert(self.entries() =~= pre.push((topic@, seq![id as usize])));
        }
        id
    }

    /// How many listener identifiers the bus has handed out.
    pub fn issued_count(&self) -> (r: usize)
        ensures
            r as int == self.issued_spec(),
    {
        self.issued
    }

    /// How many topics have at least one subscriber.
    pub fn subscriber_count(&self) -> (r: usize)
        ensures
            r == self.entries().len(),
    {
        self.topics.len()
    }

    /// The listeners to notify for an event published on `topic`, in
    /// subscription order; a topic nobody subscribed to notifies nobody.
    pub fn publish(&self, topic: &str) -> (r: Vec<usize>)
        requires
            self.wf(),
        ensures
            holds_topic(self.entries(), topic@) ==> exists|i: int|
                0 <= i < self.entries().len() && (#[trigger] self.entries()[i]).0 == topic@
                    && r@ == self.entries()[i].1,
            !holds_topic(self.entries(), topic@) ==> r@ == Seq::<usize>::empty(),
    {
        let mut j: usize = 0;
        while j < self.topics.len()
            invariant
                self.topics@.len() == self.listeners@.len(),
                j <= self.topics@.len(),
                forall|i: int| 0 <= i < j ==> (#[trigger] self.entries()[i]).0 != topic@,
            decreases self.topics@.len() - j,
        {
            if self.topics[j].as_str().eq(topic) {
                let r = self.listeners[j].clone();
                proof {
                    let w = j as int;
                    assert(0 <= w < self.entries().len() && self.entries()[w].0 == topic@ && r@
                        == self.entries()[w].1);
                }
                return r;
            }
            j = j + 1;
        }
        Vec::new()
    }
}

} // verus!
