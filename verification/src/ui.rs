//! The modal UI state machine.
//!
//! The shell has two modes: `Base`, where single keys are application
//! commands, and `Goto`, a modal URL-entry line. Every keystroke goes
//! through [`App::handle_key`], which either edits the buffer, changes
//! mode, or emits a [`Directive`] for the driver: submit one engine
//! command, or quit. The whole transition relation is written out as
//! [`step_ok`], and the laws at the bottom of the module state the
//! shell-level guarantees over it.
//!
//! A malformed URL never stops the shell: the text is rejected, the entry
//! mode stays active with the buffer intact, and the rejected text is
//! surfaced in the status bar for the next redraw.

use vstd::prelude::*;

use crate::editor::{apply_edit, edit_ok, input_text, input_with_text, key_edit_spec, key_to_edit,
    text_of, cursor_of};
use crate::keys::{KeyCode, KeyEvent, KeyKind};
use crate::url_check::{parse_url_ok, url_ok};

verus! {

/// Which mode the shell is in: the base screen, or the modal URL-entry
/// line with its text buffer.
pub enum UiState {
    Base,
    Goto(tui_input::Input),
}

/// What the status bar should show.
#[derive(Debug, PartialEq, Eq)]
pub enum BarState {
    /// Nothing to report.
    Idle,
    /// The given text was rejected as a URL; shown inline, dismissed by the
    /// next keystroke in the entry line.
    UrlParse(String),
    /// An open command went out and the page has not finished loading.
    UrlLoading,
}

/// One engine command the shell can submit.
#[derive(Debug, PartialEq, Eq)]
pub enum Command {
    /// Navigate the top-level browsing context to the given URL text.
    Open(String),
    /// Begin an orderly engine shutdown.
    Quit,
}

/// What the driver should do after one keystroke.
#[derive(Debug, PartialEq, Eq)]
pub enum Directive {
    /// Nothing to submit; pump the engine with no commands this tick.
    Continue,
    /// Submit exactly this command; the submission itself pumps the engine.
    Submit(Command),
    /// Leave the main phase and begin the shutdown handshake.
    Quit,
}

/// The UI mode as the specification sees it.
pub enum UiView {
    Base,
    Goto { text: Seq<char>, cursor: int },
}

/// The bar as the specification sees it.
pub enum BarView {
    Idle,
    UrlParse(Seq<char>),
    UrlLoading,
}

/// The whole UI state as the specification sees it.
pub struct AppView {
    pub ui: UiView,
    pub bar: BarView,
}

impl View for UiState {
    type V = UiView;

    open spec fn view(&self) -> UiView {
        match self {
            UiState::Base => UiView::Base,
            UiState::Goto(i) => UiView::Goto { text: text_of(*i), cursor: cursor_of(*i) },
        }
    }
}

impl View for BarState {
    type V = BarView;

    open spec fn view(&self) -> BarView {
        match self {
            BarState::Idle => BarView::Idle,
            BarState::UrlParse(s) => BarView::UrlParse(s@),
            BarState::UrlLoading => BarView::UrlLoading,
        }
    }
}

impl AppView {
    /// In the entry mode the cursor stays inside the buffer.
    pub open spec fn wf(self) -> bool {
        self.ui matches UiView::Goto { text, cursor } ==> 0 <= cursor <= text.len()
    }
}

/// The UI state machine: the current mode and what the status bar shows.
pub struct App {
    pub state: UiState,
    pub bar_state: BarState,
}

impl View for App {
    type V = AppView;

    open spec fn view(&self) -> AppView {
        AppView { ui: self.state@, bar: self.bar_state@ }
    }
}

/// The buffer contents seeded on entry to the URL mode.
pub open spec fn default_prefix() -> Seq<char> {
    "https://"@
}

/// The UI state entered by the go-to binding: the buffer holds the default
/// scheme prefix with the cursor at its end.
pub open spec fn goto_entry_view() -> UiView {
    UiView::Goto { text: default_prefix(), cursor: default_prefix().len() as int }
}

/// A keystroke in the entry line dismisses a stale parse error; everything
/// else on the bar stays.
pub open spec fn clear_parse_bar(b: BarView) -> BarView {
    match b {
        BarView::UrlParse(_) => BarView::Idle,
        _ => b,
    }
}

/// The shell's transition relation: how one keystroke takes the UI from
/// `pre` to `post` and what directive it emits.
///
/// In base mode, a pressed `q` quits and a pressed `g` opens the entry
/// line; everything else is inert. In the entry line, releases are
/// ignored; a pressed control+`q` quits unconditionally; enter submits the
/// buffer if it parses as a URL and surfaces it in the bar otherwise; a
/// pressed escape or control+`c` cancels; and any other press-class key is
/// routed to the editor by [`key_edit_spec`]. The relation is exact except
/// where the editor steps by graphemes or words, which `edit_ok` bounds.
pub open spec fn step_ok(pre: AppView, k: KeyEvent, post: AppView, d: Directive) -> bool {
    match pre.ui {
        UiView::Base => {
            if k.kind is Press && k.code == KeyCode::Char('q') {
                post == pre && d is Quit
            } else if k.kind is Press && k.code == KeyCode::Char('g') {
                post == (AppView { ui: goto_entry_view(), bar: pre.bar }) && d is Continue
            } else {
                post == pre && d is Continue
            }
        },
        UiView::Goto { text, cursor } => {
            if !k.press_class() {
                post == pre && d is Continue
            } else if k.kind is Press && k.ctrl && k.code == KeyCode::Char('q') {
                post == pre && d is Quit
            } else if k.code == KeyCode::Enter {
                if url_ok(text) {
                    &&& post.ui is Base
                    &&& post.bar is UrlLoading
                    &&& d matches Directive::Submit(c)
                    &&& c matches Command::Open(u)
                    &&& u@ == text
                } else {
                    &&& post.ui == pre.ui
                    &&& post.bar matches BarView::UrlParse(t)
                    &&& t == text
                    &&& d is Continue
                }
            } else if k.kind is Press && (k.code == KeyCode::Esc || (k.ctrl && k.code
                == KeyCode::Char('c'))) {
                post == (AppView { ui: UiView::Base, bar: clear_parse_bar(pre.bar) })
                    && d is Continue
            } else {
                match key_edit_spec(k) {
                    Some(e) => {
                        &&& post.ui matches UiView::Goto { text: t2, cursor: c2 }
                        &&& edit_ok(text, cursor, e, t2, c2)
                        &&& post.bar == clear_parse_bar(pre.bar)
                        &&& d is Continue
                    },
                    None => post == (AppView { ui: pre.ui, bar: clear_parse_bar(pre.bar) })
                        && d is Continue,
                }
            }
        },
    }
}

impl App {
    pub open spec fn wf(self) -> bool {
        self@.wf()
    }

    /// A fresh shell: base mode, nothing on the bar.
    pub fn new() -> (a: App)
        ensures
            a@.ui is Base,
            a@.bar is Idle,
            a.wf(),
    {
        App { state: UiState::Base, bar_state: BarState::Idle }
    }

    /// The entry line's buffer, when the entry mode is active: the terminal
    /// layer reads it to draw the popup.
    pub fn url_input(&self) -> (r: Option<&tui_input::Input>)
        ensures
            match r {
                Some(i) => self@.ui == (UiView::Goto {
                    text: text_of(*i),
                    cursor: cursor_of(*i),
                }),
                None => self@.ui is Base,
            },
    {
        match &self.state {
            UiState::Goto(i) => Some(i),
            UiState::Base => None,
        }
    }

    /// The bar state, for the redraw.
    pub fn bar(&self) -> (r: &BarState)
        ensures
            r@ == self@.bar,
    {
        &self.bar_state
    }

    /// Feeds one keystroke to the state machine and reports what the driver
    /// should do, as [`step_ok`] states.
    pub fn handle_key(&mut self, k: &KeyEvent) -> (d: Directive)
        requires
            old(self).wf(),
        ensures
            final(self).wf(),
            step_ok(old(self)@, *k, final(self)@, d),
    {
        let press = k.kind == KeyKind::Press;
        let press_class = press || k.kind == KeyKind::Repeat;
        match &mut self.state {
            UiState::Base => {
                if press && k.code == KeyCode::Char('q') {
                    return Directive::Quit;
                }
                if press && k.code == KeyCode::Char('g') {
                    self.state = UiState::Goto(input_with_text("https://".to_owned()));
                }
                Directive::Continue
            },
            UiState::Goto(input) => {
                if !press_class {
                    return Directive::Continue;
                }
                if press && k.ctrl && k.code == KeyCode::Char('q') {
                    return Directive::Quit;
                }
                if k.code == KeyCode::Enter {
                    let text: String = input_text(input).to_owned();
                    if parse_url_ok(text.as_str()) {
                        self.state = UiState::Base;
                        self.bar_state = BarState::UrlLoading;
                        return Directive::Submit(Command::Open(text));
                    }
                    self.bar_state = BarState::UrlParse(text);
                    return Directive::Continue;
                }
                if press && (k.code == KeyCode::Esc || (k.ctrl && k.code == KeyCode::Char('c'))) {
                    self.state = UiState::Base;
                    self.dismiss_parse_error();
                    return Directive::Continue;
                }
                match key_to_edit(k) {
                    Some(e) => {
                        apply_edit(input, &e);
                    },
                    None => {},
                }
                self.dismiss_parse_error();
                Directive::Continue
            },
        }
    }

    /// Clears a stale parse-error message from the bar.
    fn dismiss_parse_error(&mut self)
        ensures
            final(self)@.bar == clear_parse_bar(old(self)@.bar),
            final(self)@.ui == old(self)@.ui,
    {
        let stale = match &self.bar_state {
            BarState::UrlParse(_) => true,
            _ => false,
        };
        if stale {
            self.bar_state = BarState::Idle;
        }
    }
}

/// In base mode, keystrokes other than the quit and go-to bindings leave
/// the shell exactly as it was and emit no command.
pub proof fn lemma_base_inert(pre: AppView, k: KeyEvent, post: AppView, d: Directive)
    requires
        pre.ui is Base,
        k.code != KeyCode::Char('q'),
        k.code != KeyCode::Char('g'),
        step_ok(pre, k, post, d),
    ensures
        post == pre,
        d is Continue,
{
}

/// A run of transitions: `states` is one longer than `keys`, and each
/// keystroke relates consecutive states under [`step_ok`].
pub open spec fn trace_ok(states: Seq<AppView>, keys: Seq<KeyEvent>, dirs: Seq<Directive>) -> bool {
    &&& states.len() == keys.len() + 1
    &&& dirs.len() == keys.len()
    &&& forall|i: int|
        0 <= i < keys.len() ==> step_ok(states[i], keys[i], states[i + 1], #[trigger] dirs[i])
}

/// Over any whole run of keystrokes in which neither the quit nor the
/// go-to binding ever occurs, a shell that starts in base mode never
/// changes at all and never emits a command.
pub proof fn lemma_base_inert_trace(states: Seq<AppView>, keys: Seq<KeyEvent>, dirs: Seq<Directive>)
    requires
        trace_ok(states, keys, dirs),
        states.len() > 0,
        states[0].ui is Base,
        forall|i: int|
            0 <= i < keys.len() ==> (#[trigger] keys[i]).code != KeyCode::Char('q')
                && keys[i].code != KeyCode::Char('g'),
    ensures
        forall|i: int| 0 <= i < states.len() ==> #[trigger] states[i] == states[0],
        forall|i: int| 0 <= i < dirs.len() ==> #[trigger] dirs[i] is Continue,
    decreases keys.len(),
{
    if keys.len() > 0 {
        let n = keys.len() as int;
        let states2 = states.take(n);
        let keys2 = keys.take(n - 1);
        let dirs2 = dirs.take(n - 1);
        assert forall|i: int| 0 <= i < keys2.len() implies step_ok(
            states2[i],
            keys2[i],
            states2[i + 1],
            #[trigger] dirs2[i],
        ) by {
            assert(step_ok(states[i], keys[i], states[i + 1], dirs[i]));
        }
        lemma_base_inert_trace(states2, keys2, dirs2);
        assert(states2[n - 1] == states2[0]);
        assert(states[n - 1] == states[0]);
        lemma_base_inert(states[n - 1], keys[n - 1], states[n], dirs[n - 1]);
        assert forall|i: int| 0 <= i < states.len() implies #[trigger] states[i] == states[0] by {
            if i < n {
                assert(states2[i] == states2[0]);
            }
        }
        assert forall|i: int| 0 <= i < dirs.len() implies #[trigger] dirs[i] is Continue by {
            if i < n - 1 {
                assert(dirs2[i] is Continue);
            }
        }
    }
}

/// Entering the URL mode always seeds the buffer with the default scheme
/// prefix, cursor at its end, and emits nothing; a cancel right after
/// returns to base mode, again emitting nothing.
pub proof fn lemma_entry_then_cancel(
    pre: AppView,
    kg: KeyEvent,
    mid: AppView,
    dg: Directive,
    ke: KeyEvent,
    post: AppView,
    de: Directive,
)
    requires
        pre.ui is Base,
        kg.kind is Press,
        kg.code == KeyCode::Char('g'),
        step_ok(pre, kg, mid, dg),
        ke.kind is Press,
        ke.code == KeyCode::Esc,
        step_ok(mid, ke, post, de),
    ensures
        mid.ui == (UiView::Goto {
            text: default_prefix(),
            cursor: default_prefix().len() as int,
        }),
        dg is Continue,
        post.ui is Base,
        de is Continue,
{
}

/// Submitting the entry line: when the buffer parses as a URL, exactly one
/// open command carrying exactly the buffer's text is emitted and the
/// shell returns to base mode; when it does not, no command is emitted,
/// the entry mode stays active with the buffer intact, and the rejected
/// text is surfaced on the bar.
pub proof fn lemma_submit(pre: AppView, k: KeyEvent, post: AppView, d: Directive)
    requires
        pre.ui matches UiView::Goto { .. },
        k.press_class(),
        k.code == KeyCode::Enter,
        step_ok(pre, k, post, d),
    ensures
        url_ok(pre.ui->Goto_text) ==> {
            &&& post.ui is Base
            &&& post.bar is UrlLoading
            &&& d matches Directive::Submit(c)
            &&& c matches Command::Open(u)
            &&& u@ == pre.ui->Goto_text
        },
        !url_ok(pre.ui->Goto_text) ==> {
            &&& post.ui == pre.ui
            &&& post.bar == BarView::UrlParse(pre.ui->Goto_text)
            &&& d is Continue
        },
{
}

/// A pressed control+`q` in the URL mode quits, whatever the buffer
/// holds -- empty, mid-edit, or full.
pub proof fn lemma_ctrl_q_quits(pre: AppView, k: KeyEvent, post: AppView, d: Directive)
    requires
        pre.ui matches UiView::Goto { .. },
        k.kind is Press,
        k.ctrl,
        k.code == KeyCode::Char('q'),
        step_ok(pre, k, post, d),
    ensures
        d is Quit,
        post == pre,
{
}

} // verus!
