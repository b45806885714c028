use vstd::prelude::*;

use crate::client::{
    accept_note, accept_removal, note_outcome, note_url_of, removal_outcome, Method, Reply, Request,
    Simplenote,
};
use crate::error::{Error, Operation, Result};
use crate::note::Note;

verus! {

/// Where a removal stands. A note is fetched, saved with `deleted == 1`
/// and, for a permanent delete, then removed with a DELETE request.
#[derive(Debug, Clone, Copy, PartialEq, Eq, Structural)]
pub enum Stage {
    Start,
    Fetch,
    Trash,
    Remove,
    Done,
}

/// What the caller does next: perform a request and report its reply, or
/// stop with the result (the trashed note, or nothing after a permanent
/// delete).
#[derive(Debug)]
pub enum Action {
    Send(Request),
    Finish(Result<Option<Note>>),
}

/// The stage after `stage`, given whether the step there succeeded.
pub open spec fn advance(stage: Stage, purge: bool, ok: bool) -> Stage {
    match stage {
        Stage::Start => Stage::Fetch,
        Stage::Fetch => if ok {
            Stage::Trash
        } else {
            Stage::Done
        },
        Stage::Trash => if ok && purge {
            Stage::Remove
        } else {
            Stage::Done
        },
        _ => Stage::Done,
    }
}

/// The request sent on entering a stage.
pub open spec fn sent_on_entry(stage: Stage) -> Seq<Method> {
    match stage {
        Stage::Fetch => seq![Method::Get],
        Stage::Trash => seq![Method::Post],
        Stage::Remove => seq![Method::Delete],
        _ => seq![],
    }
}

/// The requests sent from `stage` on, when the steps succeed as `oks` says.
pub open spec fn run(stage: Stage, purge: bool, oks: Seq<bool>) -> Seq<Method>
    decreases oks.len(),
{
    if oks.len() == 0 || stage == Stage::Done {
        seq![]
    } else {
        let next = advance(stage, purge, oks[0]);
        sent_on_entry(next) + run(next, purge, oks.drop_first())
    }
}

/// A removal sends a prefix of GET, the trash update, DELETE, each at most
/// once and in that order; the DELETE is sent if and only if it is a
/// permanent delete and both the fetch and the trash update succeeded, so a
/// failed trash update is never followed by a DELETE.
pub proof fn lemma_delete_goes_through_trash(purge: bool, oks: Seq<bool>)
    requires
        oks.len() >= 3,
    ensures
        seq![Method::Get, Method::Post, Method::Delete].take(run(Stage::Start, purge, oks).len() as int)
            == run(Stage::Start, purge, oks),
        run(Stage::Start, purge, oks).contains(Method::Delete) <==> (purge && oks[1] && oks[2]),
        oks[1] ==> run(Stage::Start, purge, oks).contains(Method::Post),
{
    let o1 = oks.drop_first();
    let o2 = o1.drop_first();
    let o3 = o2.drop_first();
    assert(o1[0] == oks[1] && o2[0] == oks[2]);
    let full = seq![Method::Get, Method::Post, Method::Delete];
    let s2 = advance(Stage::Fetch, purge, oks[1]);
    if s2 == Stage::Done {
        assert(run(s2, purge, o2) =~= seq![]);
        assert(run(Stage::Fetch, purge, o1) =~= seq![]);
        assert(run(Stage::Start, purge, oks) =~= seq![Method::Get]);
        assert(full.take(1) =~= seq![Method::Get]);
    } else {
        let s3 = advance(Stage::Trash, purge, oks[2]);
        if s3 == Stage::Done {
            assert(run(s3, purge, o3) =~= seq![]);
            assert(run(Stage::Trash, purge, o2) =~= seq![]);
            assert(run(Stage::Fetch, purge, o1) =~= seq![Method::Post]);
            assert(run(Stage::Start, purge, oks) =~= seq![Method::Get, Method::Post]);
            assert(full.take(2) =~= seq![Method::Get, Method::Post]);
            assert(run(Stage::Start, purge, oks)[1] == Method::Post);
        } else {
            if o3.len() > 0 {
                let o4 = o3.drop_first();
                assert(run(Stage::Done, purge, o4) =~= seq![]);
            }
            assert(run(Stage::Remove, purge, o3) =~= seq![]);
            assert(run(Stage::Trash, purge, o2) =~= seq![Method::Delete]);
            assert(run(Stage::Fetch, purge, o1) =~= seq![Method::Post, Method::Delete]);
            assert(run(Stage::Start, purge, oks) =~= full);
            assert(full.take(3) =~= full);
            assert(full[1] == Method::Post && full[2] == Method::Delete);
        }
    }
}

/// The protocol that moves a note to the trash and, when `purge` is set,
/// then removes it for good.
#[derive(Debug, Clone)]
pub struct Removal {
    pub note_id: String,
    pub purge: bool,
    pub stage: Stage,
}

impl Removal {
    /// Same note and mode, at `stage`.
    pub open spec fn moved_to(self, old: Removal, stage: Stage) -> bool {
        self.note_id == old.note_id && self.purge == old.purge && self.stage == stage
    }

    /// A removal of `note_id` that has not started.
    pub fn new(note_id: &str, purge: bool) -> (r: Removal)
        ensures
            r.note_id@ == note_id@,
            r.purge == purge,
            r.stage == Stage::Start,
    {
        Removal { note_id: note_id.to_string(), purge, stage: Stage::Start }
    }

    /// Starts: the request that fetches the note.
    pub fn start(&mut self, client: &Simplenote, token: &str) -> (r: Request)
        requires
            old(self).stage == Stage::Start,
        ensures
            final(self).moved_to(*old(self), advance(Stage::Start, old(self).purge, true)),
            sent_on_entry(final(self).stage) == seq![r.method],
            r.url@ == note_url_of(old(self).note_id@, None, token@, client.username@),
            r.body is Empty,
    {
        self.stage = Stage::Fetch;
        client.get_note(self.note_id.as_str(), token)
    }

    /// Takes the fetched note and sends it back marked as trashed. Stops
    /// when the fetch failed, when the note came back without a key, or
    /// when the clock could not be read.
    pub fn on_fetched(&mut self, client: &Simplenote, reply: Reply<Option<Note>>, token: &str) -> (r:
        Action)
        requires
            old(self).stage == Stage::Fetch,
        ensures
            final(self).moved_to(*old(self), advance(Stage::Fetch, old(self).purge, r is Send)),
            r matches Action::Send(req) ==> sent_on_entry(final(self).stage) == seq![req.method],
            match note_outcome(Operation::FetchNote, reply) {
                Err(e) => r == Action::Finish(Err(e)),
                Ok(n) => match r {
                    Action::Send(req) => n.key is Some && client.is_trash_request(n, token@, req),
                    Action::Finish(f) => if n.key is Some {
                        f == Result::<Option<Note>>::Err(Error::Clock { op: Operation::ReadClock })
                    } else {
                        f == Result::<Option<Note>>::Err(Error::Decode { op: Operation::FetchNote })
                    },
                },
            },
    {
        match accept_note(Operation::FetchNote, reply) {
            Err(e) => {
                self.stage = Stage::Done;
                Action::Finish(Err(e))
            },
            Ok(n) => {
                if !n.has_key() {
                    self.stage = Stage::Done;
                    return Action::Finish(Err(Error::Decode { op: Operation::FetchNote }));
                }
                let ghost fetched = n;
                match client.trash_request(n, token) {
                    Ok(req) => {
                        self.stage = Stage::Trash;
                        assert(req.method == Method::Post);
                        Action::Send(req)
                    },
                    Err(e) => {
                        self.stage = Stage::Done;
                        Action::Finish(Err(e))
                    },
                }
            },
        }
    }

    /// Takes the reply to the trash update. A trash alone ends here with
    /// the trashed note; a permanent delete goes on with the DELETE request,
    /// but only when the update succeeded.
    pub fn on_trashed(&mut self, client: &Simplenote, reply: Reply<Option<Note>>, token: &str) -> (r:
        Action)
        requires
            old(self).stage == Stage::Trash,
        ensures
            final(self).moved_to(
                *old(self),
                advance(
                    Stage::Trash,
                    old(self).purge,
                    note_outcome(Operation::UpdateNote, reply) is Ok,
                ),
            ),
            match note_outcome(Operation::UpdateNote, reply) {
                Err(e) => r == Action::Finish(Err(e)),
                Ok(n) => if old(self).purge {
                    r matches Action::Send(req) && sent_on_entry(final(self).stage) == seq![
                        req.method,
                    ] && req.url@ == note_url_of(old(self).note_id@, None, token@, client.username@)
                        && req.body is Empty
                } else {
                    r == Action::Finish(Ok(Some(n)))
                },
            },
    {
        match accept_note(Operation::UpdateNote, reply) {
            Err(e) => {
                self.stage = Stage::Done;
                Action::Finish(Err(e))
            },
            Ok(n) => {
                if self.purge {
                    self.stage = Stage::Remove;
                    Action::Send(client.remove_note(self.note_id.as_str(), token))
                } else {
                    self.stage = Stage::Done;
                    Action::Finish(Ok(Some(n)))
                }
            },
        }
    }

    /// Takes the reply to the DELETE request, which ends the protocol.
    pub fn on_removed(&mut self, reply: Reply<()>) -> (r: Action)
        requires
            old(self).stage == Stage::Remove,
        ensures
            final(self).moved_to(*old(self), advance(Stage::Remove, old(self).purge, true)),
            r == Action::Finish(
                match removal_outcome(reply) {
                    Ok(_) => Ok(None),
                    Err(e) => Err(e),
                },
            ),
    {
        self.stage = Stage::Done;
        match accept_removal(reply) {
            Ok(()) => Action::Finish(Ok(None)),
            Err(e) => Action::Finish(Err(e)),
        }
    }
}

} // verus!
