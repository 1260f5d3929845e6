//! Navigation state machine: owns the mode, the search buffer, the title
//! list, the table of contents, the body and the scroll offset, and
//! interprets abstract input events.
//!
//! Committing events do not perform the network transfer themselves: they
//! return the `Request` to fetch, and the caller hands the extracted results
//! back through `apply_prefix_search` or `apply_page_parse`. A failed fetch
//! is recoverable: the machine stays in the mode it was in.

use vstd::prelude::*;
use vstd::string::StrSliceExecFns;
use vstd::string::StringExecFns;
use crate::chars::{chars_string, push_char, pop_char, str_chars};
use crate::key::Key;
use crate::request::{request_empty, request_url, Request};
use crate::state::{advance_index, retreat_index, StatefulList};
use crate::url::Endpoint;

verus! {

/// Which of the three interaction modes is active.
#[derive(Clone, Copy, PartialEq, Eq, Structural, Debug)]
pub enum Mode {
    Search,
    Browse,
    Read,
}

/// The fixed site base the canonical article URL is joined onto.
pub open spec fn site_url() -> Seq<char> {
    "https://en.wikipedia.org"@
}

/// The title as it appears in an article URL: spaces become underscores.
pub open spec fn underscored(s: Seq<char>) -> Seq<char> {
    s.map_values(
        |c: char|
            if c == ' ' {
                '_'
            } else {
                c
            },
    )
}

/// Canonical article URL: the site base, `/wiki/`, then the joined title.
pub open spec fn article_url(title: Seq<char>) -> Seq<char> {
    site_url() + "/wiki/"@ + underscored(title)
}

/// Builds the canonical article URL, as `article_url` says.
fn make_article_url(title: &str) -> (r: String)
    ensures
        r@ == article_url(title@),
{
    let chars = str_chars(title);
    let mut joined: Vec<char> = Vec::new();
    let mut i: usize = 0;
    proof {
        assert(joined@ =~= underscored(title@).subrange(0, 0));
    }
    while i < chars.len()
        invariant
            chars@ == title@,
            i <= title@.len(),
            joined@ == underscored(title@).subrange(0, i as int),
        decreases title@.len() - i,
    {
        let c = chars[i];
        if c == ' ' {
            joined.push('_');
        } else {
            joined.push(c);
        }
        proof {
            assert(joined@ =~= underscored(title@).subrange(0, i + 1 as int));
        }
        i = i + 1;
    }
    proof {
        assert(joined@ =~= underscored(title@));
    }
    let mut out = String::from_str("https://en.wikipedia.org");
    out.append("/wiki/");
    let tail = chars_string(&joined);
    out.append(tail.as_str());
    proof {
        assert(out@ =~= article_url(title@));
    }
    out
}

/// Where an upward scroll lands: it only moves when the offset is already
/// positive, and saturates instead of overflowing.
pub open spec fn scroll_up_val(cur: u16, inc: u16) -> u16 {
    if cur > 0 {
        if cur + inc <= u16::MAX {
            (cur + inc) as u16
        } else {
            u16::MAX
        }
    } else {
        cur
    }
}

/// Where a downward scroll lands: it only moves while the offset is below the
/// body's line count, and saturates at zero instead of underflowing.
pub open spec fn scroll_down_val(cur: u16, inc: u16, body_len: int) -> u16 {
    if (cur as int) < body_len {
        if cur >= inc {
            (cur - inc) as u16
        } else {
            0
        }
    } else {
        cur
    }
}

/// The mode `escape` falls back to.
pub open spec fn escape_target(m: Mode) -> Mode {
    match m {
        Mode::Search => Mode::Search,
        Mode::Browse => Mode::Search,
        Mode::Read => Mode::Browse,
    }
}

/// All navigation and domain state, owned exclusively by this machine.
pub struct App<'a> {
    pub title: &'a str,
    pub mode: Mode,
    pub search_input: String,
    pub search_input_last: String,
    pub search_cursor_x_max: u16,
    pub search_cursor_x: u16,
    pub search_cursor_y: u16,
    pub pages: StatefulList<String>,
    pub toc: Vec<String>,
    pub page: Vec<String>,
    pub page_scroll: u16,
    pub url: String,
}

impl<'a> App<'a> {
    /// A fresh machine: search mode, empty buffers, nothing fetched yet.
    pub fn new(title: &'a str) -> (r: Self)
        ensures
            r.title == title,
            r.mode == Mode::Search,
            r.search_input@ == Seq::<char>::empty(),
            r.search_input_last@ == Seq::<char>::empty(),
            r.search_cursor_x_max == 0,
            r.search_cursor_x == 0,
            r.search_cursor_y == 0,
            r.pages.state.selected is None,
            r.pages.items@ == Seq::<String>::empty(),
            r.toc@ == Seq::<String>::empty(),
            r.page@ == Seq::<String>::empty(),
            r.page_scroll == 0,
            r.url@ == site_url(),
    {
        Self {
            title,
            mode: Mode::Search,
            search_input: String::new(),
            search_input_last: String::new(),
            search_cursor_x_max: 0,
            search_cursor_x: 0,
            search_cursor_y: 0,
            pages: StatefulList::default(),
            toc: Vec::new(),
            page: Vec::new(),
            page_scroll: 0,
            url: String::from_str("https://en.wikipedia.org"),
        }
    }

    /// In search mode, appends the typed character to the query buffer while
    /// the buffer is shorter than the caller-supplied width; elsewhere a
    /// no-op.
    pub fn on_key(&mut self, key: char)
        ensures
            on_key_ensures(old(self), final(self), key),
    {
        match self.mode {
            Mode::Search => {
                if self.search_input.as_str().unicode_len() < self.search_cursor_x_max as usize {
                    push_char(&mut self.search_input, key);
                }
            },
            Mode::Browse => {},
            Mode::Read => {},
        }
    }

    /// In search mode, removes the last character of the query buffer, if
    /// any; elsewhere a no-op.
    pub fn on_backspace(&mut self)
        ensures
            on_backspace_ensures(old(self), final(self)),
    {
        match self.mode {
            Mode::Search => {
                let _ = pop_char(&mut self.search_input);
            },
            Mode::Browse => {},
            Mode::Read => {},
        }
    }

    /// The committing event. In search mode: an empty query is a no-op; an
    /// unchanged query switches to browse without a fetch; a new query asks
    /// for a prefix search fetch and stays in search mode until the results
    /// are applied. In browse mode with a valid selection it asks for a page
    /// parse fetch of the selected title. Elsewhere a no-op.
    pub fn on_enter(&mut self) -> (r: Option<Request>)
        ensures
            on_enter_ensures(old(self), final(self), r),
    {
        match self.mode {
            Mode::Search => {
                if self.search_input.as_str().is_empty() {
                    return None;
                }
                if self.search_input == self.search_input_last {
                    self.mode = Mode::Browse;
                    return None;
                }
                Some(Request::new(self.search_input.as_str(), Endpoint::PrefixSearch))
            },
            Mode::Browse => {
                match self.pages.state.selected() {
                    Some(i) => {
                        if i < self.pages.items.len() {
                            let page = &self.pages.items[i];
                            Some(Request::new(page.as_str(), Endpoint::PageParse))
                        } else {
                            None
                        }
                    },
                    None => None,
                }
            },
            Mode::Read => None,
        }
    }

    /// Installs the titles a prefix search fetch returned: the list replaces
    /// the old one wholesale, the selection resets, the committed query is
    /// remembered, and the machine switches to browse mode.
    pub fn apply_prefix_search(&mut self, titles: Vec<String>)
        ensures
            *final(self) == (App {
                mode: Mode::Browse,
                search_input_last: final(self).search_input_last,
                pages: final(self).pages,
                ..*old(self)
            }),
            final(self).search_input_last == old(self).search_input,
            final(self).pages.items == titles,
            final(self).pages.state.selected is None,
    {
        self.mode = Mode::Browse;
        self.search_input_last = self.search_input.clone();
        self.pages = StatefulList::with_items(titles);
    }

    /// Installs the table of contents and the body a page parse fetch
    /// returned, for the selected title: both replace the old ones wholesale,
    /// the scroll offset resets, the canonical article URL is derived from
    /// the title, and the machine switches to read mode. Without a valid
    /// selection this is a no-op.
    pub fn apply_page_parse(&mut self, toc: Vec<String>, body: Vec<String>)
        ensures
            match old(self).pages.state.selected {
                Some(i) => {
                    if i < old(self).pages.items@.len() {
                        *final(self) == (App {
                            mode: Mode::Read,
                            toc: final(self).toc,
                            page: final(self).page,
                            page_scroll: 0,
                            url: final(self).url,
                            ..*old(self)
                        }) && final(self).toc == toc && final(self).page == body && final(self).url@ == article_url(old(self).pages.items@[i as int]@)
                    } else {
                        *final(self) == *old(self)
                    }
                },
                None => *final(self) == *old(self),
            },
    {
        match self.pages.state.selected() {
            Some(i) => {
                if i < self.pages.items.len() {
                    let url = make_article_url(self.pages.items[i].as_str());
                    self.toc = toc;
                    self.page = body;
                    self.page_scroll = 0;
                    self.url = url;
                    self.mode = Mode::Read;
                }
            },
            None => {},
        }
    }

    /// Escape falls back one mode: read to browse, browse to search.
    pub fn on_escape(&mut self)
        ensures
            *final(self) == (App { mode: escape_target(old(self).mode), ..*old(self) }),
    {
        match self.mode {
            Mode::Search => {},
            Mode::Browse => self.mode = Mode::Search,
            Mode::Read => self.mode = Mode::Browse,
        }
    }

    /// Up moves the browse selection back one step, or scrolls one step in
    /// read mode; a no-op in search mode.
    pub fn on_up(&mut self)
        ensures
            nav_up_ensures(old(self), final(self), 1),
    {
        match self.mode {
            Mode::Search => {},
            Mode::Browse => self.pages.previous(1),
            Mode::Read => self.scroll_up(1),
        }
    }

    /// Down moves the browse selection forward one step, or scrolls one step
    /// in read mode; a no-op in search mode.
    pub fn on_down(&mut self)
        ensures
            nav_down_ensures(old(self), final(self), 1),
    {
        match self.mode {
            Mode::Search => {},
            Mode::Browse => self.pages.next(1),
            Mode::Read => self.scroll_down(1),
        }
    }

    /// Left jumps the browse selection back five steps, or scrolls five steps
    /// in read mode; a no-op in search mode.
    pub fn on_left(&mut self)
        ensures
            nav_up_ensures(old(self), final(self), 5),
    {
        match self.mode {
            Mode::Search => {},
            Mode::Browse => self.pages.previous(5),
            Mode::Read => self.scroll_up(5),
        }
    }

    /// Right jumps the browse selection forward five steps, or scrolls five
    /// steps in read mode; a no-op in search mode.
    pub fn on_right(&mut self)
        ensures
            nav_down_ensures(old(self), final(self), 5),
    {
        match self.mode {
            Mode::Search => {},
            Mode::Browse => self.pages.next(5),
            Mode::Read => self.scroll_down(5),
        }
    }

    /// Scrolling up: see `scroll_up_val`.
    fn scroll_up(&mut self, increment: u16)
        ensures
            *final(self) == (App { page_scroll: final(self).page_scroll, ..*old(self) }),
            final(self).page_scroll == scroll_up_val(old(self).page_scroll, increment),
    {
        if self.page_scroll > 0 {
            if increment <= u16::MAX - self.page_scroll {
                self.page_scroll = self.page_scroll + increment;
            } else {
                self.page_scroll = u16::MAX;
            }
        }
    }

    /// Scrolling down: see `scroll_down_val`.
    fn scroll_down(&mut self, increment: u16)
        ensures
            *final(self) == (App { page_scroll: final(self).page_scroll, ..*old(self) }),
            final(self).page_scroll == scroll_down_val(
                old(self).page_scroll,
                increment,
                old(self).page@.len() as int,
            ),
    {
        if (self.page_scroll as usize) < self.page.len() {
            if self.page_scroll >= increment {
                self.page_scroll = self.page_scroll - increment;
            } else {
                self.page_scroll = 0;
            }
        }
    }
}

/// What typing a character does: in search mode, while the buffer is shorter
/// than the caller-supplied width, the character is appended; elsewhere
/// nothing changes.
pub open spec fn on_key_ensures(pre: &App, post: &App, key: char) -> bool {
    *post == (App { search_input: post.search_input, ..*pre }) && post.search_input@ == if pre.mode
        == Mode::Search && pre.search_input@.len() < pre.search_cursor_x_max as int {
        pre.search_input@.push(key)
    } else {
        pre.search_input@
    }
}

/// What backspace does: in search mode the last buffer character goes;
/// elsewhere nothing changes.
pub open spec fn on_backspace_ensures(pre: &App, post: &App) -> bool {
    *post == (App { search_input: post.search_input, ..*pre }) && post.search_input@ == if pre.mode
        == Mode::Search && pre.search_input@.len() > 0 {
        pre.search_input@.drop_last()
    } else {
        pre.search_input@
    }
}

/// What up and left do, for a given step.
pub open spec fn nav_up_ensures(pre: &App, post: &App, step: u16) -> bool {
    match pre.mode {
        Mode::Search => *post == *pre,
        Mode::Browse => *post == (App { pages: post.pages, ..*pre }) && post.pages.items
            == pre.pages.items && post.pages.state.selected == Some(
            retreat_index(pre.pages.state.selected, pre.pages.items@.len() as int, step as int)
                as usize,
        ),
        Mode::Read => *post == (App { page_scroll: post.page_scroll, ..*pre })
            && post.page_scroll == scroll_up_val(pre.page_scroll, step),
    }
}

/// What down and right do, for a given step.
pub open spec fn nav_down_ensures(pre: &App, post: &App, step: u16) -> bool {
    match pre.mode {
        Mode::Search => *post == *pre,
        Mode::Browse => *post == (App { pages: post.pages, ..*pre }) && post.pages.items
            == pre.pages.items && post.pages.state.selected == Some(
            advance_index(pre.pages.state.selected, pre.pages.items@.len() as int, step as int)
                as usize,
        ),
        Mode::Read => *post == (App { page_scroll: post.page_scroll, ..*pre })
            && post.page_scroll == scroll_down_val(pre.page_scroll, step, pre.page@.len() as int),
    }
}

impl<'a> App<'a> {
    /// Interprets one decoded key: `q`/`Q` asks the loop to quit, enter may
    /// ask for a fetch, the rest navigate; keys the table has no entry for do
    /// nothing.
    pub fn on_event(&mut self, key: Key) -> (r: (bool, Option<Request>))
        ensures
            on_event_ensures(old(self), final(self), key, r.0, r.1),
    {
        match key {
            Key::Char(c) => {
                if c == 'q' || c == 'Q' {
                    (true, None)
                } else {
                    self.on_key(c);
                    (false, None)
                }
            },
            Key::Esc => {
                self.on_escape();
                (false, None)
            },
            Key::Enter => {
                let req = self.on_enter();
                (false, req)
            },
            Key::Up => {
                self.on_up();
                (false, None)
            },
            Key::Down => {
                self.on_down();
                (false, None)
            },
            Key::Left => {
                self.on_left();
                (false, None)
            },
            Key::Right => {
                self.on_right();
                (false, None)
            },
            Key::Backspace => {
                self.on_backspace();
                (false, None)
            },
            _ => (false, None),
        }
    }
}

/// The full case table of `on_event`: which key does what, when the loop is
/// asked to quit, and when a fetch is requested.
pub open spec fn on_event_ensures(
    pre: &App,
    post: &App,
    key: Key,
    quit: bool,
    r: Option<Request>,
) -> bool {
    match key {
        Key::Char(c) => {
            if c == 'q' || c == 'Q' {
                quit && r is None && *post == *pre
            } else {
                !quit && r is None && on_key_ensures(pre, post, c)
            }
        },
        Key::Esc => !quit && r is None && *post == (App {
            mode: escape_target(pre.mode),
            ..*pre
        }),
        Key::Enter => !quit && on_enter_ensures(pre, post, r),
        Key::Up => !quit && r is None && nav_up_ensures(pre, post, 1),
        Key::Down => !quit && r is None && nav_down_ensures(pre, post, 1),
        Key::Left => !quit && r is None && nav_up_ensures(pre, post, 5),
        Key::Right => !quit && r is None && nav_down_ensures(pre, post, 5),
        Key::Backspace => !quit && r is None && on_backspace_ensures(pre, post),
        _ => !quit && r is None && *post == *pre,
    }
}

/// Re-submitting an unchanged, non-empty query switches to browse mode
/// without asking for a second fetch: after a first commit's results are
/// applied, the buffer and the remembered buffer agree, and `on_enter` then
/// requests nothing.
pub proof fn lemma_resubmit_needs_no_fetch(pre: &App, post: &App, r: Option<Request>)
    requires
        pre.mode == Mode::Search,
        pre.search_input@.len() > 0,
        pre.search_input@ == pre.search_input_last@,
        on_enter_ensures(pre, post, r),
    ensures
        post.mode == Mode::Browse,
        r is None,
{
}

/// The full case table of `on_enter`, as its contract states it.
pub open spec fn on_enter_ensures(pre: &App, post: &App, r: Option<Request>) -> bool {
    *post == (App { mode: post.mode, ..*pre }) && match pre.mode {
        Mode::Search => {
            if pre.search_input@.len() == 0 {
                post.mode == Mode::Search && r is None
            } else if pre.search_input@ == pre.search_input_last@ {
                post.mode == Mode::Browse && r is None
            } else {
                post.mode == Mode::Search && (r matches Some(req) && req.endpoint
                    == Endpoint::PrefixSearch && req.url@ == request_url(
                    pre.search_input@,
                    Endpoint::PrefixSearch,
                ) && request_empty(&req))
            }
        },
        Mode::Browse => {
            post.mode == Mode::Browse && (match pre.pages.state.selected {
                Some(i) => {
                    if i < pre.pages.items@.len() {
                        r matches Some(req) && req.endpoint == Endpoint::PageParse && req.url@
                            == request_url(pre.pages.items@[i as int]@, Endpoint::PageParse)
                            && request_empty(&req)
                    } else {
                        r is None
                    }
                },
                None => r is None,
            })
        },
        Mode::Read => post.mode == Mode::Read && r is None,
    }
}

} // verus!
