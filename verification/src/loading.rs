//! Entries that are being loaded, and the channels on which their items arrive.

use crate::item_view::EntryOpener;
use crate::paths::{EntryKey, ProjectPath};
use postage::watch::{Receiver, Sender};
use vstd::prelude::*;

verus! {

/// Why an entry could not be loaded.
#[derive(Clone, Debug, PartialEq, Eq)]
pub enum LoadError {
    /// None of the openers takes the entry.
    NoOpener,
    /// The opener that took the entry failed. The failure is kept under this number.
    Failed(usize),
}

/// The receiving half of a `postage` watch channel.
#[verifier::external_type_specification]
#[verifier::external_body]
#[verifier::reject_recursive_types(T)]
pub struct ExReceiver<T>(postage::watch::Receiver<T>);

/// The sending half of a `postage` watch channel.
#[verifier::external_type_specification]
#[verifier::external_body]
#[verifier::reject_recursive_types(T)]
pub struct ExSender<T>(postage::watch::Sender<T>);

/// Which channel a receiver reads from.
pub uninterp spec fn received_channel(
    receiver: Receiver<Option<Result<usize, LoadError>>>,
) -> int;

/// Which channel a sender writes to.
pub uninterp spec fn sent_channel(sender: Sender<Option<Result<usize, LoadError>>>) -> int;

/// The values that a sender's channel has held so far. The sender cannot be duplicated and
/// receivers only read, so the value changes through this sender alone.
pub uninterp spec fn held_so_far(
    sender: Sender<Option<Result<usize, LoadError>>>,
) -> Set<Option<Result<usize, LoadError>>>;

/// The values that a channel holds, one after the other, from when it is made until both of its
/// halves are gone. Which of them it holds now is not said.
pub uninterp spec fn held_in_time(channel: int) -> Set<Option<Result<usize, LoadError>>>;

/// `postage::watch::channel`: the two halves of one channel, which holds the default of its
/// type, `None`, and has held nothing else.
#[verifier::external_body]
fn load_channel() -> (halves: (
    Sender<Option<Result<usize, LoadError>>>,
    Receiver<Option<Result<usize, LoadError>>>,
))
    ensures
        sent_channel(halves.0) == received_channel(halves.1),
        held_so_far(halves.0) == set![None::<Result<usize, LoadError>>],
{
    postage::watch::channel()
}

/// `<postage::watch::Receiver as Clone>::clone`: another receiver of the same channel.
#[verifier::external_body]
fn same_channel(receiver: &Receiver<Option<Result<usize, LoadError>>>) -> (copy: Receiver<
    Option<Result<usize, LoadError>>,
>)
    ensures
        received_channel(copy) == received_channel(*receiver),
{
    receiver.clone()
}

/// `postage::watch::Sender::borrow_mut`: writes the value of the channel. The sender is dropped
/// afterwards, so the channel never holds anything but what it has held before and this value.
#[verifier::external_body]
fn send(
    sender: &mut Option<Sender<Option<Result<usize, LoadError>>>>,
    result: Result<usize, LoadError>,
)
    requires
        *old(sender) is Some,
    ensures
        *final(sender) is None,
        held_in_time(sent_channel((*old(sender))->0)) == held_so_far((*old(sender))->0).insert(
            Some(result),
        ),
{
    *sender.take().unwrap().borrow_mut() = Some(result);
}

/// `postage::watch::Receiver::borrow`: what the channel of the receiver holds at the moment. Which
/// of the values that the channel holds in time this is, is left unsaid: it depends on what the
/// sender, which runs on its own, has written by then.
#[verifier::external_body]
fn receive(receiver: &Receiver<Option<Result<usize, LoadError>>>) -> (result: Option<
    Result<usize, LoadError>,
>)
    ensures
        held_in_time(received_channel(*receiver)).contains(result),
{
    receiver.borrow().clone()
}

/// An entry that is being loaded, with a receiver for its item.
struct LoadingItem {
    project_path: ProjectPath,
    watch: Receiver<Option<Result<usize, LoadError>>>,
}

/// The entries that are being loaded, at most one load for each.
pub struct LoadingItems {
    entries: Vec<LoadingItem>,
}

impl LoadingItems {
    spec fn distinct(self) -> bool {
        forall|i: int, j: int|
            0 <= i < j < self.entries@.len() ==> (#[trigger] self.entries@[i]).project_path@ != (
            #[trigger] self.entries@[j]).project_path@
    }

    spec fn is_at(self, key: EntryKey, i: int) -> bool {
        0 <= i < self.entries@.len() && self.entries@[i].project_path@ == key
    }

    /// No entry is loaded twice at the same time.
    pub closed spec fn wf(self) -> bool {
        self.distinct()
    }
}

impl View for LoadingItems {
    type V = Map<EntryKey, int>;

    /// The channel of each entry that is being loaded.
    closed spec fn view(&self) -> Map<EntryKey, int> {
        Map::new(
            |key: EntryKey| exists|i: int| self.is_at(key, i),
            |key: EntryKey|
                received_channel(self.entries@[choose|i: int| self.is_at(key, i)].watch),
        )
    }
}

impl LoadingItems {
    proof fn lemma_at(self, i: int)
        requires
            self.wf(),
            0 <= i < self.entries@.len(),
        ensures
            self@.contains_key(self.entries@[i].project_path@),
            self@[self.entries@[i].project_path@] == received_channel(self.entries@[i].watch),
    {
        let key = self.entries@[i].project_path@;
        assert(self.is_at(key, i));
        let j = choose|j: int| self.is_at(key, j);
        assert(self.is_at(key, j));
        if i < j {
            assert(self.entries@[i].project_path@ != self.entries@[j].project_path@);
        } else if j < i {
            assert(self.entries@[j].project_path@ != self.entries@[i].project_path@);
        }
    }

    /// No entry is being loaded.
    pub(crate) fn new() -> (loading: Self)
        ensures
            loading.wf(),
            loading@ == Map::<EntryKey, int>::empty(),
    {
        let loading = LoadingItems { entries: Vec::new() };
        assert(loading@ =~= Map::<EntryKey, int>::empty());
        loading
    }

    fn position(&self, project_path: &ProjectPath) -> (position: Option<usize>)
        requires
            self.wf(),
        ensures
            match position {
                Some(i) => self.is_at(project_path@, i as int),
                None => !self@.contains_key(project_path@),
            },
    {
        let mut i: usize = 0;
        while i < self.entries.len()
            invariant
                i <= self.entries@.len(),
                forall|j: int| 0 <= j < i ==> !#[trigger] self.is_at(project_path@, j),
            decreases self.entries@.len() - i,
        {
            if self.entries[i].project_path == *project_path {
                return Some(i);
            }
            i += 1;
        }
        None
    }

    /// Another receiver for an entry that is being loaded.
    pub(crate) fn join(&self, project_path: &ProjectPath) -> (watch: Option<
        Receiver<Option<Result<usize, LoadError>>>,
    >)
        requires
            self.wf(),
        ensures
            match watch {
                Some(receiver) => self@.contains_key(project_path@) && received_channel(receiver)
                    == self@[project_path@],
                None => !self@.contains_key(project_path@),
            },
    {
        match self.position(project_path) {
            Some(i) => {
                proof {
                    self.lemma_at(i as int);
                }
                Some(same_channel(&self.entries[i].watch))
            },
            None => None,
        }
    }

    /// Opens a channel for an entry that is not being loaded. Hands out its sender and a
    /// receiver.
    pub(crate) fn start(&mut self, project_path: ProjectPath) -> (halves: (
        Sender<Option<Result<usize, LoadError>>>,
        Receiver<Option<Result<usize, LoadError>>>,
    ))
        requires
            old(self).wf(),
            !old(self)@.contains_key(project_path@),
        ensures
            final(self).wf(),
            sent_channel(halves.0) == received_channel(halves.1),
            held_so_far(halves.0) == set![None::<Result<usize, LoadError>>],
            final(self)@ == old(self)@.insert(project_path@, received_channel(halves.1)),
    {
        let (sender, receiver) = load_channel();
        let watch = same_channel(&receiver);
        let ghost before = *self;
        self.entries.push(LoadingItem { project_path, watch });
        proof {
            let n = before.entries@.len() as int;
            let key = project_path@;
            assert forall|i: int, j: int| 0 <= i < j < self.entries@.len() implies (
            #[trigger] self.entries@[i]).project_path@ != (
            #[trigger] self.entries@[j]).project_path@ by {
                assert(before.entries@[i] == self.entries@[i]);
                if j == n {
                    before.lemma_at(i);
                } else {
                    assert(before.entries@[j] == self.entries@[j]);
                }
            }
            let inserted = before@.insert(key, received_channel(receiver));
            assert forall|k: EntryKey| self@.contains_key(k) <==> inserted.contains_key(k) by {
                if self@.contains_key(k) {
                    let i = choose|i: int| self.is_at(k, i);
                    assert(self.is_at(k, i));
                    if i < n {
                        assert(before.is_at(k, i));
                    }
                }
                if before@.contains_key(k) {
                    let i = choose|i: int| before.is_at(k, i);
                    assert(before.is_at(k, i));
                    assert(self.is_at(k, i));
                }
                assert(self.is_at(key, n));
            }
            assert forall|k: EntryKey| self@.contains_key(k) implies self@[k] == inserted[k] by {
                let i = choose|i: int| self.is_at(k, i);
                assert(self.is_at(k, i));
                self.lemma_at(i);
                if i < n {
                    assert(before.entries@[i] == self.entries@[i]);
                    before.lemma_at(i);
                }
            }
            assert(self@ =~= inserted);
        }
        (sender, receiver)
    }

    /// Forgets the load of an entry.
    pub(crate) fn remove(&mut self, project_path: &ProjectPath)
        requires
            old(self).wf(),
        ensures
            final(self).wf(),
            final(self)@ == old(self)@.remove(project_path@),
    {
        let ghost before = *self;
        match self.position(project_path) {
            Some(at) => {
                let _ = self.entries.remove(at);
                proof {
                    let key = project_path@;
                    let removed = before@.remove(key);
                    assert forall|i: int| 0 <= i < self.entries@.len() implies {
                        let from = if i < at {
                            i
                        } else {
                            i + 1
                        };
                        0 <= from < before.entries@.len() && from != at
                            && #[trigger] self.entries@[i] == before.entries@[from]
                    } by {}
                    assert(self.distinct());
                    assert forall|k: EntryKey| self@.contains_key(k) <==> removed.contains_key(
                        k,
                    ) by {
                        if self@.contains_key(k) {
                            let i = choose|i: int| self.is_at(k, i);
                            assert(self.is_at(k, i));
                            let from = if i < at {
                                i
                            } else {
                                i + 1
                            };
                            assert(self.entries@[i] == before.entries@[from]);
                            assert(before.is_at(k, from));
                        }
                        if removed.contains_key(k) {
                            let i = choose|i: int| before.is_at(k, i);
                            assert(before.is_at(k, i));
                            let to = if i < at {
                                i
                            } else {
                                i - 1
                            };
                            assert(self.entries@[to] == before.entries@[i]);
                            assert(self.is_at(k, to));
                        }
                    }
                    assert forall|k: EntryKey| self@.contains_key(k) implies self@[k]
                        == removed[k] by {
                        let i = choose|i: int| self.is_at(k, i);
                        assert(self.is_at(k, i));
                        self.lemma_at(i);
                        let from = if i < at {
                            i
                        } else {
                            i + 1
                        };
                        assert(self.entries@[i] == before.entries@[from]);
                        before.lemma_at(from);
                    }
                    assert(self@ =~= removed);
                }
            },
            None => {
                assert(self@ =~= self@.remove(project_path@));
            },
        }
    }
}

/// The sender of the one result of a load.
pub struct ResultSender {
    sender: Sender<Option<Result<usize, LoadError>>>,
}

impl ResultSender {
    /// The channel on which the result is sent.
    pub closed spec fn channel(self) -> int {
        sent_channel(self.sender)
    }

    /// What the channel has held so far.
    pub closed spec fn held(self) -> Set<Option<Result<usize, LoadError>>> {
        held_so_far(self.sender)
    }

    pub(crate) fn new(sender: Sender<Option<Result<usize, LoadError>>>) -> (result: Self)
        ensures
            result.channel() == sent_channel(sender),
            result.held() == held_so_far(sender),
    {
        ResultSender { sender }
    }

    /// Sends the result. Nothing else is sent on the channel any more.
    fn send(self, result: Result<usize, LoadError>)
        ensures
            held_in_time(self.channel()) == self.held().insert(Some(result)),
    {
        let mut sender = Some(self.sender);
        send(&mut sender, result);
    }
}

/// The load of an entry: the openers are asked one after the other, and the result is sent to
/// everyone who waits for the entry.
pub struct EntryLoad {
    pub project_path: ProjectPath,
    pub openers: Vec<usize>,
    pub result: ResultSender,
}

/// The opener with an id, the first where there are several.
pub open spec fn opener_of<O>(openers: Seq<(usize, O)>, id: usize) -> Option<O>
    decreases openers.len(),
{
    if openers.len() == 0 {
        None
    } else if openers.first().0 == id {
        Some(openers.first().1)
    } else {
        opener_of(openers.drop_first(), id)
    }
}

fn find_opener<O>(openers: &Vec<(usize, O)>, id: usize) -> (opener: &O)
    requires
        opener_of(openers@, id) is Some,
    ensures
        opener_of(openers@, id) == Some(*opener),
{
    let mut i: usize = 0;
    assert(openers@.skip(0) =~= openers@);
    while openers[i].0 != id
        invariant
            i < openers.len(),
            opener_of(openers@, id) is Some,
            opener_of(openers@, id) == opener_of(openers@.skip(i as int), id),
        decreases openers@.len() - i,
    {
        assert(openers@.skip(i as int).drop_first() =~= openers@.skip(i + 1));
        i += 1;
        assert(i < openers@.len());
    }
    &openers[i].1
}

/// The answer of the opener at `i` where `asked` openers were asked and `task` came of it: all
/// but the last decline, and so does the last where there is no task.
pub open spec fn answer_at<T>(asked: int, task: Option<T>, i: int) -> Option<T> {
    if i == asked - 1 {
        task
    } else {
        None
    }
}

/// How the openers with the ids of a load are asked for an entry. They are asked in their order,
/// each one once, until one takes the entry, and the openers after it are not asked; without a
/// task, all of them are. The context goes from each to the next: `contexts` starts with what it
/// was before, and has what it is after each opener that was asked.
pub open spec fn asked_in_turn<O: EntryOpener>(
    ids: Seq<usize>,
    openers: Seq<(usize, O)>,
    project_path: ProjectPath,
    contexts: Seq<O::Context>,
    task: Option<O::Task>,
) -> bool {
    let asked = contexts.len() - 1;
    &&& 0 <= asked <= ids.len()
    &&& task is Some ==> 0 < asked
    &&& task is None ==> asked == ids.len()
    &&& forall|i: int|
        0 <= i < asked ==> call_ensures(
            O::open,
            (
                &opener_of(openers, #[trigger] ids[i])->0,
                project_path.worktree_id,
                project_path,
                contexts[i],
            ),
            (answer_at(asked, task, i), contexts[i + 1]),
        )
}

impl EntryLoad {
    /// The opener that is asked when a number of them have declined; none is left after the last.
    pub fn next_opener(&self, declined: usize) -> (opener: Option<usize>)
        ensures
            opener == if declined < self.openers@.len() {
                Some(self.openers@[declined as int])
            } else {
                None::<usize>
            },
    {
        if declined < self.openers.len() {
            Some(self.openers[declined])
        } else {
            None
        }
    }

    /// Asks the openers of the load for the entry, in their order, until one takes it. They are
    /// found by their ids.
    pub fn open<O: EntryOpener>(&self, openers: &Vec<(usize, O)>, cx: O::Context) -> (opened: (
        Option<O::Task>,
        O::Context,
    ))
        requires
            forall|i: int|
                0 <= i < self.openers@.len() ==> opener_of(
                    openers@,
                    #[trigger] self.openers@[i],
                ) is Some,
        ensures
            exists|contexts: Seq<O::Context>|
                {
                    &&& #[trigger] asked_in_turn(
                        self.openers@,
                        openers@,
                        self.project_path,
                        contexts,
                        opened.0,
                    )
                    &&& contexts.first() == cx
                    &&& contexts.last() == opened.1
                },
    {
        let mut declined: usize = 0;
        let mut context = cx;
        let ghost mut contexts = seq![context];
        loop
            invariant
                forall|i: int|
                    0 <= i < self.openers@.len() ==> opener_of(
                        openers@,
                        #[trigger] self.openers@[i],
                    ) is Some,
                declined <= self.openers.len(),
                contexts.len() == declined + 1,
                contexts.first() == cx,
                contexts.last() == context,
                forall|i: int|
                    0 <= i < declined ==> call_ensures(
                        O::open,
                        (
                            &opener_of(openers@, #[trigger] self.openers@[i])->0,
                            self.project_path.worktree_id,
                            self.project_path,
                            contexts[i],
                        ),
                        (None, contexts[i + 1]),
                    ),
            decreases self.openers@.len() - declined,
        {
            let opener = match self.next_opener(declined) {
                Some(id) => find_opener(openers, id),
                None => {
                    let opened: (Option<O::Task>, O::Context) = (None, context);
                    assert(asked_in_turn(
                        self.openers@,
                        openers@,
                        self.project_path,
                        contexts,
                        opened.0,
                    ));
                    return opened;
                },
            };
            let (task, after) = opener.open(
                self.project_path.worktree_id,
                self.project_path.clone(),
                context,
            );
            context = after;
            proof {
                contexts = contexts.push(context);
            }
            if task.is_some() {
                assert(asked_in_turn(
                    self.openers@,
                    openers@,
                    self.project_path,
                    contexts,
                    task,
                ));
                return (task, context);
            }
            declined += 1;
        }
    }

    /// Sends the result of the load: what the opener that took the entry came back with, or that
    /// there was no such opener. Nothing else is sent on the channel any more.
    pub fn finish(self, opened: Option<Result<usize, usize>>)
        ensures
            held_in_time(self.result.channel()) == self.result.held().insert(
                Some(load_result(opened)),
            ),
    {
        let result = match opened {
            Some(Ok(item)) => Ok(item),
            Some(Err(failure)) => Err(LoadError::Failed(failure)),
            None => Err(LoadError::NoOpener),
        };
        self.result.send(result);
    }
}

/// The result of a load, by what came of asking the openers.
pub open spec fn load_result(opened: Option<Result<usize, usize>>) -> Result<usize, LoadError> {
    match opened {
        Some(Ok(item)) => Ok(item),
        Some(Err(failure)) => Err(LoadError::Failed(failure)),
        None => Err(LoadError::NoOpener),
    }
}

/// Someone who waits for an entry to be loaded, to show it in a pane.
pub struct PendingEntry {
    pub project_path: ProjectPath,
    pub pane: usize,
    pub watch: Receiver<Option<Result<usize, LoadError>>>,
}

impl PendingEntry {
    /// The result of the load if it has arrived by now: a value of the channel that is waited on.
    /// Which one comes back depends on how far the load has come.
    pub fn poll(&self) -> (result: Option<Result<usize, LoadError>>)
        ensures
            held_in_time(received_channel(self.watch)).contains(result),
    {
        receive(&self.watch)
    }
}

} // verus!
