//! State shared between commands: the open paginated messages, keyed by the
//! user who opened them, and the moment the bot started.

use std::collections::HashMap;

use vstd::prelude::*;

use crate::embed::Embed;
use crate::pagination::{
    fresh_model, model_wf, pressed, shown_page, PageAction, PageControl, Pagination,
    PaginationModel,
};

verus! {

broadcast use vstd::std_specs::hash::group_hash_axioms;

/// When the bot started, as a Unix timestamp in seconds.
#[derive(Clone, Copy, Debug)]
pub struct UptimeData {
    pub started_unix: i64,
}

/// The session of `user` in `m`: the stored message, or an empty one that no
/// one opened when there is none.
pub open spec fn session_of(m: Map<u64, PaginationModel>, user: u64) -> PaginationModel {
    if m.contains_key(user) {
        m[user]
    } else {
        fresh_model(Seq::empty())
    }
}

/// The sessions after `user` pressed `c`: a missing session is stored empty;
/// a session no one opened stays as it is; a delete forgets the session; any
/// other press moves it.
pub open spec fn sessions_after_press(
    m: Map<u64, PaginationModel>,
    user: u64,
    c: Option<PageControl>,
) -> Map<u64, PaginationModel> {
    let p = session_of(m, user);
    if p.author is None {
        m.insert(user, p)
    } else if c == Some(PageControl::Delete) {
        m.remove(user)
    } else {
        m.insert(user, pressed(p, c))
    }
}

/// What a press on a stored session leads to.
pub enum SessionOutcome {
    /// No one opened this session: it has expired or belongs to someone else.
    Expired,
    /// Show this page.
    Show(Embed),
    /// The message was deleted: disable its buttons.
    Close,
}

/// The open paginated messages, by the user who opened each.
pub struct PaginationMap {
    sessions: HashMap<u64, Pagination>,
}

impl View for PaginationMap {
    type V = Map<u64, PaginationModel>;

    closed spec fn view(&self) -> Map<u64, PaginationModel> {
        self.sessions@.map_values(|p: Pagination| p@)
    }
}

impl PaginationMap {
    /// Whether every stored message is in a state it can be in.
    pub open spec fn wf(&self) -> bool {
        forall|u: u64| #[trigger] self@.contains_key(u) ==> model_wf(self@[u])
    }

    /// No open messages.
    pub fn new() -> (m: PaginationMap)
        ensures
            m@ == Map::<u64, PaginationModel>::empty(),
            m.wf(),
    {
        let m = PaginationMap { sessions: HashMap::new() };
        assert(m@ =~= Map::<u64, PaginationModel>::empty());
        m
    }

    /// Stores the message that `user` opened, replacing any earlier one.
    pub fn insert(&mut self, user: u64, p: Pagination)
        requires
            old(self).wf(),
            p.wf(),
        ensures
            final(self)@ == old(self)@.insert(user, p@),
            final(self).wf(),
    {
        let ghost pm = p@;
        self.sessions.insert(user, p);
        assert(self@ =~= old(self)@.insert(user, pm));
    }

    /// The message stored for `user`, if any.
    pub fn get(&self, user: u64) -> (p: Option<&Pagination>)
        ensures
            p matches Some(q) ==> self@.contains_key(user) && q@ == self@[user],
            p is None ==> !self@.contains_key(user),
    {
        self.sessions.get(&user)
    }

    /// The number of stored messages.
    pub fn len(&self) -> (n: usize)
        ensures
            n == self@.len(),
    {
        proof {
            assert(self@.dom() =~= self.sessions@.dom());
        }
        self.sessions.len()
    }

    /// Handles a press of `control` by `user` on their message.
    pub fn press(&mut self, user: u64, control: Option<PageControl>) -> (o: SessionOutcome)
        requires
            old(self).wf(),
        ensures
            final(self).wf(),
            final(self)@ == sessions_after_press(old(self)@, user, control),
            session_of(old(self)@, user).author is None <==> o is Expired,
            session_of(old(self)@, user).author is Some && control == Some(PageControl::Delete)
                <==> o is Close,
            o matches SessionOutcome::Show(e) ==> e@ == shown_page(
                pressed(session_of(old(self)@, user), control),
            ),
    {
        let ghost old_view = self@;
        let existing = self.sessions.remove(&user);
        assert(self@ =~= old_view.remove(user));
        let mut p = match existing {
            Some(p) => p,
            None => {
                let none: Vec<Embed> = Vec::new();
                assert(none@.map_values(|e: Embed| e@) =~= Seq::<crate::embed::EmbedModel>::empty());
                Pagination::new(none)
            },
        };
        assert(p@ == session_of(old_view, user));
        match p.author() {
            None => {
                let ghost pm = p@;
                self.sessions.insert(user, p);
                assert(self@ =~= old_view.insert(user, pm));
                SessionOutcome::Expired
            },
            Some(_) => {
                let a = p.handle_interaction_and_delete_pagination(control);
                match a {
                    PageAction::Close => SessionOutcome::Close,
                    PageAction::Show(e) => {
                        let ghost pm = p@;
                        self.sessions.insert(user, p);
                        assert(self@ =~= old_view.insert(user, pm));
                        SessionOutcome::Show(e)
                    },
                }
            },
        }
    }
}

/// A press changes only the presser's session.
pub proof fn lemma_press_is_local(
    m: Map<u64, PaginationModel>,
    user: u64,
    other: u64,
    c: Option<PageControl>,
)
    requires
        other != user,
    ensures
        sessions_after_press(m, user, c).contains_key(other) == m.contains_key(other),
        m.contains_key(other) ==> sessions_after_press(m, user, c)[other] == m[other],
{
}

/// A delete on an opened message forgets it: a later press finds no one's
/// session and changes nothing more.
pub proof fn lemma_delete_forgets(m: Map<u64, PaginationModel>, user: u64, c: Option<PageControl>)
    requires
        session_of(m, user).author is Some,
    ensures
        !sessions_after_press(m, user, Some(PageControl::Delete)).contains_key(user),
        session_of(sessions_after_press(m, user, Some(PageControl::Delete)), user).author is None,
{
}

} // verus!
