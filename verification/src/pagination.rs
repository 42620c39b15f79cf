//! A paginated message: a list of pages, the page on show, and the user who
//! opened it, driven by five buttons (first, previous, delete, next, last).

use vstd::prelude::*;
use vstd::string::StringExecFns;

use crate::embed::{Embed, EmbedModel};
use crate::text::{decimal, push_decimal};

verus! {

/// The look of a button.
#[derive(PartialEq, Eq, Structural, Clone, Copy, Debug)]
pub enum ButtonStyle {
    Primary,
    Danger,
}

/// One of the five buttons under a paginated message.
#[derive(PartialEq, Eq, Structural, Clone, Copy, Debug)]
pub enum PageControl {
    First,
    Prev,
    Delete,
    Next,
    Last,
}

/// The emoji of a button, which is also its custom id.
pub open spec fn control_id(c: PageControl) -> Seq<char> {
    match c {
        PageControl::First => "<:first:1029775638061654087>"@,
        PageControl::Prev => "<:prev:1029775635196936252>"@,
        PageControl::Delete => "🗑️"@,
        PageControl::Next => "<:next:1029775632785227796>"@,
        PageControl::Last => "<:last:1029775630327357502>"@,
    }
}

/// The control whose custom id is `id`, if any.
pub open spec fn control_of_id(id: Seq<char>) -> Option<PageControl> {
    if id == control_id(PageControl::First) {
        Some(PageControl::First)
    } else if id == control_id(PageControl::Prev) {
        Some(PageControl::Prev)
    } else if id == control_id(PageControl::Delete) {
        Some(PageControl::Delete)
    } else if id == control_id(PageControl::Next) {
        Some(PageControl::Next)
    } else if id == control_id(PageControl::Last) {
        Some(PageControl::Last)
    } else {
        None
    }
}

impl PageControl {
    /// The custom id (and emoji) of this button.
    pub fn custom_id(&self) -> (s: &'static str)
        ensures
            s@ == control_id(*self),
    {
        match self {
            PageControl::First => "<:first:1029775638061654087>",
            PageControl::Prev => "<:prev:1029775635196936252>",
            PageControl::Delete => "🗑️",
            PageControl::Next => "<:next:1029775632785227796>",
            PageControl::Last => "<:last:1029775630327357502>",
        }
    }

    /// The control that a pressed button's custom id names, if any.
    pub fn from_custom_id(id: &str) -> (c: Option<PageControl>)
        ensures
            c == control_of_id(id@),
    {
        if crate::text::str_eq(id, PageControl::First.custom_id()) {
            Some(PageControl::First)
        } else if crate::text::str_eq(id, PageControl::Prev.custom_id()) {
            Some(PageControl::Prev)
        } else if crate::text::str_eq(id, PageControl::Delete.custom_id()) {
            Some(PageControl::Delete)
        } else if crate::text::str_eq(id, PageControl::Next.custom_id()) {
            Some(PageControl::Next)
        } else if crate::text::str_eq(id, PageControl::Last.custom_id()) {
            Some(PageControl::Last)
        } else {
            None
        }
    }

    /// The look of this button: the delete button is red, the others primary.
    pub fn style(&self) -> (s: ButtonStyle)
        ensures
            s == (if *self == PageControl::Delete {
                ButtonStyle::Danger
            } else {
                ButtonStyle::Primary
            }),
    {
        match self {
            PageControl::Delete => ButtonStyle::Danger,
            _ => ButtonStyle::Primary,
        }
    }

    /// The buttons of the row, left to right.
    pub fn row() -> (r: Vec<PageControl>)
        ensures
            r@ == seq![
                PageControl::First,
                PageControl::Prev,
                PageControl::Delete,
                PageControl::Next,
                PageControl::Last,
            ],
    {
        let mut r = Vec::new();
        r.push(PageControl::First);
        r.push(PageControl::Prev);
        r.push(PageControl::Delete);
        r.push(PageControl::Next);
        r.push(PageControl::Last);
        assert(r@ =~= seq![
            PageControl::First,
            PageControl::Prev,
            PageControl::Delete,
            PageControl::Next,
            PageControl::Last,
        ]);
        r
    }
}

/// Reading a button's custom id back gives the button.
pub proof fn lemma_custom_id_roundtrip(c: PageControl)
    ensures
        control_of_id(control_id(c)) == Some(c),
{
    reveal_strlit("<:first:1029775638061654087>");
    reveal_strlit("<:prev:1029775635196936252>");
    reveal_strlit("🗑️");
    reveal_strlit("<:next:1029775632785227796>");
    reveal_strlit("<:last:1029775630327357502>");
    let f = control_id(PageControl::First);
    let p = control_id(PageControl::Prev);
    let d = control_id(PageControl::Delete);
    let n = control_id(PageControl::Next);
    assert(f[2] == 'f' && p[2] == 'p' && n[2] == 'n');
    assert(f.len() != d.len() && p.len() != d.len() && n.len() != d.len());
    assert(control_id(PageControl::Last)[2] == 'l');
    assert(control_id(PageControl::Last).len() != d.len());
    assert(f != p && f != d && f != n && f != control_id(PageControl::Last));
    assert(p != d && p != n && p != control_id(PageControl::Last));
    assert(d != n && d != control_id(PageControl::Last));
    assert(n != control_id(PageControl::Last));
}

/// The abstract state of a paginated message.
pub struct PaginationModel {
    pub pages: Seq<EmbedModel>,
    pub index: int,
    pub author: Option<u64>,
}

/// The state of a paginated message that has just been built, not yet shown.
pub open spec fn fresh_model(pages: Seq<EmbedModel>) -> PaginationModel {
    PaginationModel { pages, index: 0, author: None }
}

/// The states that a paginated message can be in: the index points at a page
/// (or is 0 when there are none), and a message that someone opened has pages.
pub open spec fn model_wf(p: PaginationModel) -> bool {
    &&& (p.pages.len() == 0 && p.index == 0) || (0 <= p.index < p.pages.len())
    &&& p.author is Some ==> p.pages.len() > 0
}

/// The page shown after a press on a message with `len` pages showing page
/// `index`; a delete is not a move.
pub open spec fn moved_index(index: int, len: int, c: Option<PageControl>) -> int {
    match c {
        Some(PageControl::First) => 0,
        Some(PageControl::Prev) => if index == 0 {
            len - 1
        } else {
            index - 1
        },
        Some(PageControl::Next) => if index == len - 1 {
            0
        } else {
            index + 1
        },
        Some(PageControl::Last) => len - 1,
        _ => index,
    }
}

/// The state after a press.
pub open spec fn pressed(p: PaginationModel, c: Option<PageControl>) -> PaginationModel {
    if c == Some(PageControl::Delete) {
        PaginationModel { pages: Seq::empty(), index: 0, author: None }
    } else {
        PaginationModel {
            index: moved_index(p.index, p.pages.len() as int, c),
            ..p
        }
    }
}

/// The footer that tells which page is on show.
pub open spec fn footer_text(index: int, count: int) -> Seq<char> {
    "Page "@ + decimal((index + 1) as nat) + " of "@ + decimal(count as nat)
}

/// The page on show, with its footer.
pub open spec fn shown_page(p: PaginationModel) -> EmbedModel {
    EmbedModel {
        footer_text: Some(footer_text(p.index, p.pages.len() as int)),
        footer_icon: None,
        ..p.pages[p.index]
    }
}

/// What a press asks the client to do.
pub enum PageAction {
    /// Edit the message to show this page.
    Show(Embed),
    /// Disable the buttons: the message is closed and its state forgotten.
    Close,
}

/// A paginated message.
#[derive(Clone, Debug)]
pub struct Pagination {
    pages: Vec<Embed>,
    index: usize,
    author: Option<u64>,
}

impl View for Pagination {
    type V = PaginationModel;

    closed spec fn view(&self) -> PaginationModel {
        PaginationModel {
            pages: self.pages@.map_values(|e: Embed| e@),
            index: self.index as int,
            author: self.author,
        }
    }
}

impl Pagination {
    /// Whether the message is in a state it can be in.
    pub open spec fn wf(&self) -> bool {
        model_wf(self@)
    }

    /// A message over `pages`, showing the first page, opened by no one yet.
    pub fn new(pages: Vec<Embed>) -> (p: Pagination)
        ensures
            p@ == fresh_model(pages@.map_values(|e: Embed| e@)),
            p.wf(),
    {
        Pagination { pages, index: 0, author: None }
    }

    /// The user who opened the message, if any.
    pub fn author(&self) -> (a: Option<u64>)
        ensures
            a == self@.author,
    {
        self.author
    }

    /// The position of the page on show.
    pub fn index(&self) -> (i: usize)
        ensures
            i == self@.index,
    {
        self.index
    }

    /// The number of pages.
    pub fn page_count(&self) -> (n: usize)
        ensures
            n == self@.pages.len(),
    {
        self.pages.len()
    }

    /// The page on show, with the footer "Page i of n".
    pub fn current_page(&self) -> (e: Embed)
        requires
            self.wf(),
            self@.pages.len() > 0,
        ensures
            e@ == shown_page(self@),
    {
        let len = self.pages.len();
        assert(self.index < len);
        let mut e = self.pages[self.index].duplicate();
        let mut footer = String::new();
        footer.append("Page ");
        push_decimal(&mut footer, (self.index + 1) as u64);
        footer.append(" of ");
        push_decimal(&mut footer, len as u64);
        assert(footer@ =~= footer_text(self@.index, self@.pages.len() as int));
        e.footer_text = Some(footer);
        e.footer_icon = None;
        e
    }

    /// Shows the message to the user `author`, who becomes its owner; the
    /// page on show is returned.
    pub fn handle_message(&mut self, author: u64) -> (e: Embed)
        requires
            old(self).wf(),
            old(self)@.pages.len() > 0,
        ensures
            final(self)@ == (PaginationModel { author: Some(author), ..old(self)@ }),
            final(self).wf(),
            e@ == shown_page(old(self)@),
    {
        self.author = Some(author);
        self.current_page()
    }

    /// Applies a press of `control` (None for a custom id that names no
    /// button): moves to another page, wrapping around at both ends, or, for
    /// delete, empties the message and forgets its owner.
    pub fn handle_interaction_and_delete_pagination(&mut self, control: Option<PageControl>) -> (a:
        PageAction)
        requires
            old(self).wf(),
            old(self)@.pages.len() > 0 || control == Some(PageControl::Delete),
        ensures
            final(self)@ == pressed(old(self)@, control),
            final(self).wf(),
            control == Some(PageControl::Delete) <==> a is Close,
            a matches PageAction::Show(e) ==> e@ == shown_page(final(self)@),
            control == Some(PageControl::First) ==> final(self)@.index == 0,
            control == Some(PageControl::Last) ==> final(self)@.index == old(self)@.pages.len() - 1,
            control == Some(PageControl::Next) ==> final(self)@.index == (old(self)@.index + 1) % (
            old(self)@.pages.len() as int),
            control == Some(PageControl::Prev) ==> final(self)@.index == (old(self)@.index + old(
                self,
            )@.pages.len() - 1) % (old(self)@.pages.len() as int),
            control is None ==> final(self)@ == old(self)@,
            control != Some(PageControl::Delete) ==> final(self)@.pages == old(self)@.pages
                && final(self)@.author == old(self)@.author,
            control == Some(PageControl::Delete) ==> final(self)@.pages.len() == 0
                && final(self)@.author is None,
    {
        let len = self.pages.len();
        match control {
            Some(PageControl::Delete) => {
                self.pages.clear();
                self.author = None;
                self.index = 0;
                assert(self@.pages =~= Seq::<EmbedModel>::empty());
                return PageAction::Close;
            },
            Some(PageControl::First) => {
                self.index = 0;
            },
            Some(PageControl::Prev) => {
                if self.index == 0 {
                    self.index = len;
                }
                if self.index > 0 {
                    self.index = self.index - 1;
                }
            },
            Some(PageControl::Next) => {
                if self.index == len - 1 {
                    self.index = 0;
                } else if self.index < len - 1 {
                    self.index = self.index + 1;
                }
            },
            Some(PageControl::Last) => {
                self.index = len - 1;
            },
            None => {},
        }
        proof {
            lemma_press_destinations(old(self)@);
        }
        PageAction::Show(self.current_page())
    }
}

/// Every press keeps a paginated message in a state it can be in.
pub proof fn lemma_press_keeps_wf(p: PaginationModel, c: Option<PageControl>)
    requires
        model_wf(p),
        p.pages.len() > 0 || c == Some(PageControl::Delete),
    ensures
        model_wf(pressed(p, c)),
{
}

/// Where each button leads from any page of a message with pages: "first" to
/// the first page, "last" to the last page, "next" one page on and "previous"
/// one page back, both counted around the pages; a custom id that names no
/// button changes nothing, and no move changes the pages or the owner.
pub proof fn lemma_press_destinations(p: PaginationModel)
    requires
        model_wf(p),
        p.pages.len() > 0,
    ensures
        pressed(p, Some(PageControl::First)).index == 0,
        pressed(p, Some(PageControl::Last)).index == p.pages.len() - 1,
        pressed(p, Some(PageControl::Next)).index == (p.index + 1) % (p.pages.len() as int),
        pressed(p, Some(PageControl::Prev)).index == (p.index + p.pages.len() - 1) % (
        p.pages.len() as int),
        pressed(p, None) == p,
        forall|c: PageControl|
            c != PageControl::Delete ==> (#[trigger] pressed(p, Some(c))).pages == p.pages
                && pressed(p, Some(c)).author == p.author,
{
    let n = p.pages.len() as int;
    if p.index == n - 1 {
        assert((p.index + 1) % n == 0) by (nonlinear_arith)
            requires
                p.index + 1 == n,
                n > 0,
        ;
    } else {
        assert((p.index + 1) % n == p.index + 1) by (nonlinear_arith)
            requires
                0 <= p.index + 1 < n,
        ;
    }
    if p.index == 0 {
        assert((p.index + n - 1) % n == n - 1) by (nonlinear_arith)
            requires
                p.index == 0,
                n > 0,
        ;
    } else {
        assert((p.index + n - 1) % n == p.index - 1) by (nonlinear_arith)
            requires
                0 < p.index < n,
        ;
    }
}

/// "Last" shows the last page, whatever page was on show: its footer reads
/// "Page n of n" for a message of n pages.
pub proof fn lemma_last_shows_last_page(p: PaginationModel)
    requires
        model_wf(p),
        p.pages.len() > 0,
    ensures
        pressed(p, Some(PageControl::Last)).index == p.pages.len() - 1,
        shown_page(pressed(p, Some(PageControl::Last))).footer_text == Some(
            "Page "@ + decimal(p.pages.len()) + " of "@ + decimal(p.pages.len()),
        ),
{
    let q = pressed(p, Some(PageControl::Last));
    assert((q.index + 1) as nat == p.pages.len());
}

/// "First" shows the first page, whatever page was on show: its footer reads
/// "Page 1 of n".
pub proof fn lemma_first_shows_first_page(p: PaginationModel)
    requires
        model_wf(p),
        p.pages.len() > 0,
    ensures
        pressed(p, Some(PageControl::First)).index == 0,
        shown_page(pressed(p, Some(PageControl::First))).footer_text == Some(
            "Page "@ + decimal(1) + " of "@ + decimal(p.pages.len()),
        ),
{
}

/// "Next" on the last page wraps to the first, and "previous" on the first
/// page wraps to the last.
pub proof fn lemma_wrap_around(p: PaginationModel)
    requires
        model_wf(p),
        p.pages.len() > 0,
    ensures
        p.index == p.pages.len() - 1 ==> pressed(p, Some(PageControl::Next)).index == 0,
        p.index == 0 ==> pressed(p, Some(PageControl::Prev)).index == p.pages.len() - 1,
{
}

/// "Previous" undoes "next", and "next" undoes "previous".
pub proof fn lemma_prev_undoes_next(p: PaginationModel)
    requires
        model_wf(p),
        p.pages.len() > 0,
    ensures
        pressed(pressed(p, Some(PageControl::Next)), Some(PageControl::Prev)) == p,
        pressed(pressed(p, Some(PageControl::Prev)), Some(PageControl::Next)) == p,
{
}

/// Pressing "next" as many times as there are pages comes back to the same page.
pub proof fn lemma_next_cycles(p: PaginationModel)
    requires
        model_wf(p),
        p.pages.len() > 0,
    ensures
        presses_next(p, p.pages.len()) == p,
{
    let n = p.pages.len() as int;
    lemma_next_steps(p, p.pages.len());
    assert((p.index + n) % n == p.index) by (nonlinear_arith)
        requires
            0 <= p.index < n,
    ;
}

/// The state after `k` presses of "next".
pub open spec fn presses_next(p: PaginationModel, k: nat) -> PaginationModel
    decreases k,
{
    if k == 0 {
        p
    } else {
        pressed(presses_next(p, (k - 1) as nat), Some(PageControl::Next))
    }
}

/// After `k` presses of "next", the page on show is `k` further on, counted
/// around the pages.
pub proof fn lemma_next_steps(p: PaginationModel, k: nat)
    requires
        model_wf(p),
        p.pages.len() > 0,
        k <= p.pages.len(),
    ensures
        presses_next(p, k).index == (p.index + k) % (p.pages.len() as int),
        presses_next(p, k).pages == p.pages,
        presses_next(p, k).author == p.author,
    decreases k,
{
    if k > 0 {
        lemma_next_steps(p, (k - 1) as nat);
        let n = p.pages.len() as int;
        let prev = presses_next(p, (k - 1) as nat);
        assert(0 <= prev.index < n);
        if prev.index == n - 1 {
            assert((p.index + k - 1) % n == n - 1);
            assert((p.index + k) % n == 0) by (nonlinear_arith)
                requires
                    (p.index + k - 1) % n == n - 1,
                    n > 0,
            ;
        } else {
            assert((p.index + k) % n == (p.index + k - 1) % n + 1) by (nonlinear_arith)
                requires
                    (p.index + k - 1) % n < n - 1,
                    0 <= (p.index + k - 1) % n,
                    n > 0,
            ;
        }
    } else {
        assert(p.index % (p.pages.len() as int) == p.index) by (nonlinear_arith)
            requires
                0 <= p.index < p.pages.len(),
        ;
    }
}

} // verus!
