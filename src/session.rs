//! The interactive session: keys are classified into commands, and commands
//! and ticks are applied to the session state, the only thing that changes
//! while a session runs.

use crate::args::{section_label, section_name, Section};
use vstd::prelude::*;
use vstd::string::*;

verus! {

/// A key as the session reads it.
#[derive(Clone, Copy, Debug, PartialEq, Eq, Structural)]
pub enum Key {
    /// A printable character.
    Char(char),
    /// A character typed with the control key held.
    Ctrl(char),
    Enter,
    Esc,
    Backspace,
    Up,
    Down,
    Left,
    Right,
    /// Any other key.
    Other,
}

/// What a session can be asked to do.
#[derive(Clone, Copy, Debug, PartialEq, Eq, Structural)]
pub enum Command {
    /// Select the previous parameter.
    MoveUp,
    /// Select the next parameter.
    MoveDown,
    /// Select the next section.
    NextSection,
    /// Select the previous section.
    PreviousSection,
    /// Start typing a search.
    EnterSearch,
    /// Add a character to the text being typed.
    InputChar(char),
    /// Remove the last character of the text being typed.
    EraseChar,
    /// Search for the text typed.
    Confirm,
    /// Drop the text typed.
    Cancel,
    /// Show or hide the documentation.
    ToggleDocs,
    /// Save the selected parameter.
    Save,
    /// Read the parameters' values again.
    Refresh,
    /// End the session.
    Exit,
    /// Do nothing.
    Nothing,
}

/// An event that the session reacts to.
#[derive(Clone, Copy, Debug, PartialEq, Eq, Structural)]
pub enum Event {
    /// The tick interval elapsed.
    Tick,
    /// A key was pressed.
    KeyPress(Key),
}

/// What a tick does, chosen by whoever runs the session.
#[derive(Clone, Copy, Debug, PartialEq, Eq, Structural)]
pub enum TickPolicy {
    /// A tick refreshes what is shown.
    Refresh,
    /// A tick ends the session (for runs without a user).
    Terminate,
}

/// Outside work that applying a command asks of whoever runs the session.
#[derive(Clone, Copy, Debug, PartialEq, Eq, Structural)]
pub enum Effect {
    /// Nothing to do.
    Nothing,
    /// List the parameters that match the search text and section again.
    Search,
    /// Save the selected parameter.
    Save,
    /// Read the listed parameters' values again.
    Refresh,
}

/// Whether keys are navigation or text.
pub enum InteractionMode {
    /// Keys move around.
    Browse,
    /// Keys are typed into this search text.
    InputEntry(Vec<char>),
}

/// The mode, as a mathematical value.
pub enum ModeView {
    Browse,
    InputEntry(Seq<char>),
}

impl View for InteractionMode {
    type V = ModeView;

    open spec fn view(&self) -> ModeView {
        match self {
            InteractionMode::Browse => ModeView::Browse,
            InteractionMode::InputEntry(b) => ModeView::InputEntry(b@),
        }
    }
}

/// The session state, as a mathematical value.
pub struct SessionView {
    pub running: bool,
    pub mode: ModeView,
    pub selection: usize,
    pub item_count: usize,
    pub section_index: usize,
    pub section_count: usize,
    pub search: Seq<char>,
    pub whole_search: bool,
    pub show_docs: bool,
}

/// The state of a session.
pub struct SessionState {
    /// Stays true until the session ends; it never becomes true again.
    pub running: bool,
    /// Whether keys are navigation or text.
    pub mode: InteractionMode,
    /// Index of the selected parameter among those listed.
    pub selection: usize,
    /// How many parameters are listed.
    pub item_count: usize,
    /// Index of the selected section.
    pub section_index: usize,
    /// How many sections there are to choose from.
    pub section_count: usize,
    /// The text that the listed parameters were searched with.
    pub search: Vec<char>,
    /// Whether that search covers every section, whichever is selected.
    pub whole_search: bool,
    /// Whether the documentation is shown.
    pub show_docs: bool,
}

impl View for SessionState {
    type V = SessionView;

    open spec fn view(&self) -> SessionView {
        SessionView {
            running: self.running,
            mode: self.mode@,
            selection: self.selection,
            item_count: self.item_count,
            section_index: self.section_index,
            section_count: self.section_count,
            search: self.search@,
            whole_search: self.whole_search,
            show_docs: self.show_docs,
        }
    }
}

/// A selection lies among the listed items, or is 0 when none is listed.
pub open spec fn in_range(index: usize, count: usize) -> bool {
    index < count || (count == 0 && index == 0)
}

/// The cursors lie in range.
pub open spec fn well_formed(s: SessionView) -> bool {
    in_range(s.selection, s.item_count) && in_range(s.section_index, s.section_count)
}

/// The command that a key stands for, in input mode or not.
pub open spec fn command_for(key: Key, input_mode: bool) -> Command {
    if input_mode {
        match key {
            Key::Char(c) => Command::InputChar(c),
            Key::Ctrl('c') => Command::Exit,
            Key::Backspace => Command::EraseChar,
            Key::Enter => Command::Confirm,
            Key::Esc => Command::Cancel,
            _ => Command::Nothing,
        }
    } else {
        match key {
            Key::Char('q') | Key::Esc | Key::Ctrl('c') => Command::Exit,
            Key::Char('k') | Key::Up => Command::MoveUp,
            Key::Char('j') | Key::Down => Command::MoveDown,
            Key::Char('h') | Key::Left => Command::PreviousSection,
            Key::Char('l') | Key::Right => Command::NextSection,
            Key::Char('/') => Command::EnterSearch,
            Key::Char('d') => Command::ToggleDocs,
            Key::Char('s') => Command::Save,
            Key::Char('r') => Command::Refresh,
            _ => Command::Nothing,
        }
    }
}

/// The state after applying command `c` to state `s`.
pub open spec fn applied(s: SessionView, c: Command) -> SessionView {
    if !s.running {
        s
    } else {
        match (c, s.mode) {
            (Command::Exit, _) => SessionView { running: false, ..s },
            (Command::MoveUp, ModeView::Browse) => if s.selection > 0 {
                SessionView { selection: (s.selection - 1) as usize, ..s }
            } else {
                s
            },
            (Command::MoveDown, ModeView::Browse) => if s.selection + 1 < s.item_count {
                SessionView { selection: (s.selection + 1) as usize, ..s }
            } else {
                s
            },
            (Command::NextSection, ModeView::Browse) => if s.section_count > 0 {
                SessionView {
                    section_index: if s.section_index + 1 < s.section_count { (s.section_index + 1) as usize } else { 0 },
                    selection: 0,
                    whole_search: false,
                    ..s
                }
            } else {
                s
            },
            (Command::PreviousSection, ModeView::Browse) => if s.section_count > 0 {
                SessionView {
                    section_index: if s.section_index > 0 { (s.section_index - 1) as usize } else { (s.section_count - 1) as usize },
                    selection: 0,
                    whole_search: false,
                    ..s
                }
            } else {
                s
            },
            (Command::EnterSearch, ModeView::Browse) => SessionView { mode: ModeView::InputEntry(Seq::empty()), ..s },
            (Command::ToggleDocs, ModeView::Browse) => SessionView { show_docs: !s.show_docs, ..s },
            (Command::InputChar(ch), ModeView::InputEntry(b)) => SessionView { mode: ModeView::InputEntry(b.push(ch)), ..s },
            (Command::EraseChar, ModeView::InputEntry(b)) => if b.len() > 0 {
                SessionView { mode: ModeView::InputEntry(b.drop_last()), ..s }
            } else {
                s
            },
            (Command::Confirm, ModeView::InputEntry(b)) => SessionView { mode: ModeView::Browse, search: b, selection: 0, ..s },
            (Command::Cancel, ModeView::InputEntry(_)) => SessionView { mode: ModeView::Browse, ..s },
            _ => s,
        }
    }
}

/// The outside work that applying command `c` to state `s` asks for.
pub open spec fn effect_of(s: SessionView, c: Command) -> Effect {
    if !s.running {
        Effect::Nothing
    } else {
        match (c, s.mode) {
            (Command::NextSection, ModeView::Browse) => if s.section_count > 0 { Effect::Search } else { Effect::Nothing },
            (Command::PreviousSection, ModeView::Browse) => if s.section_count > 0 { Effect::Search } else { Effect::Nothing },
            (Command::Confirm, ModeView::InputEntry(_)) => Effect::Search,
            (Command::Save, ModeView::Browse) => Effect::Save,
            (Command::Refresh, ModeView::Browse) => Effect::Refresh,
            _ => Effect::Nothing,
        }
    }
}

/// The state after applying the commands of `cs` to `s`, in order.
pub open spec fn replayed(s: SessionView, cs: Seq<Command>) -> SessionView
    decreases cs.len(),
{
    if cs.len() == 0 {
        s
    } else {
        applied(replayed(s, cs.drop_last()), cs.last())
    }
}

/// The state after a tick under `policy`.
pub open spec fn ticked(s: SessionView, policy: TickPolicy) -> SessionView {
    if s.running && policy == TickPolicy::Terminate {
        SessionView { running: false, ..s }
    } else {
        s
    }
}

/// `cs` are the commands that type the characters of `text`, in order.
pub open spec fn types_text(cs: Seq<Command>, text: Seq<char>) -> bool {
    cs.len() == text.len() && forall|i: int| 0 <= i < cs.len() ==> cs[i] == Command::InputChar(#[trigger] text[i])
}

/// Once a session has ended, no list of commands changes its state.
pub proof fn ended_session_is_final(s: SessionView, cs: Seq<Command>)
    requires
        !s.running,
    ensures
        replayed(s, cs) == s,
    decreases cs.len(),
{
    if cs.len() > 0 {
        ended_session_is_final(s, cs.drop_last());
    }
}

/// Replaying commands is deterministic however they are grouped: replaying
/// `a` followed by `b` gives the state that replaying `b` gives from the
/// state that replaying `a` gave.
pub proof fn replay_in_parts(s: SessionView, a: Seq<Command>, b: Seq<Command>)
    ensures
        replayed(s, a + b) == replayed(replayed(s, a), b),
    decreases b.len(),
{
    if b.len() == 0 {
        assert(a + b =~= a);
    } else {
        assert((a + b).drop_last() =~= a + b.drop_last());
        assert((a + b).last() == b.last());
        replay_in_parts(s, a, b.drop_last());
    }
}

/// Typing `text` in input mode appends it to the text typed so far and
/// changes nothing else.
pub proof fn typing_appends(s: SessionView, typed: Seq<char>, cs: Seq<Command>, text: Seq<char>)
    requires
        s.running,
        s.mode == ModeView::InputEntry(typed),
        types_text(cs, text),
    ensures
        replayed(s, cs) == (SessionView { mode: ModeView::InputEntry(typed + text), ..s }),
    decreases text.len(),
{
    if text.len() == 0 {
        assert(typed + text =~= typed);
    } else {
        assert(types_text(cs.drop_last(), text.drop_last()));
        typing_appends(s, typed, cs.drop_last(), text.drop_last());
        assert(cs.last() == Command::InputChar(text.last()));
        assert((typed + text.drop_last()).push(text.last()) =~= typed + text);
    }
}

/// From browsing, entering a search starts with an empty text; typed
/// characters accumulate in order; confirming returns to browsing with the
/// listing searched with that text; cancelling returns to browsing with the
/// text dropped and the earlier search kept.
pub proof fn search_entry(s: SessionView, cs: Seq<Command>, text: Seq<char>)
    requires
        s.running,
        s.mode == ModeView::Browse,
        types_text(cs, text),
    ensures
        applied(s, Command::EnterSearch).mode == ModeView::InputEntry(Seq::<char>::empty()),
        replayed(applied(s, Command::EnterSearch), cs).mode == ModeView::InputEntry(text),
        applied(replayed(applied(s, Command::EnterSearch), cs), Command::Confirm).mode == ModeView::Browse,
        applied(replayed(applied(s, Command::EnterSearch), cs), Command::Confirm).search == text,
        applied(replayed(applied(s, Command::EnterSearch), cs), Command::Cancel).mode == ModeView::Browse,
        applied(replayed(applied(s, Command::EnterSearch), cs), Command::Cancel).search == s.search,
{
    typing_appends(applied(s, Command::EnterSearch), Seq::empty(), cs, text);
    assert(Seq::<char>::empty() + text =~= text);
}

/// The command that `key` stands for, in input mode or not.
pub fn classify(key: Key, input_mode: bool) -> (c: Command)
    ensures
        c == command_for(key, input_mode),
{
    if input_mode {
        match key {
            Key::Char(c) => Command::InputChar(c),
            Key::Ctrl('c') => Command::Exit,
            Key::Backspace => Command::EraseChar,
            Key::Enter => Command::Confirm,
            Key::Esc => Command::Cancel,
            _ => Command::Nothing,
        }
    } else {
        match key {
            Key::Char('q') | Key::Esc | Key::Ctrl('c') => Command::Exit,
            Key::Char('k') | Key::Up => Command::MoveUp,
            Key::Char('j') | Key::Down => Command::MoveDown,
            Key::Char('h') | Key::Left => Command::PreviousSection,
            Key::Char('l') | Key::Right => Command::NextSection,
            Key::Char('/') => Command::EnterSearch,
            Key::Char('d') => Command::ToggleDocs,
            Key::Char('s') => Command::Save,
            Key::Char('r') => Command::Refresh,
            _ => Command::Nothing,
        }
    }
}

impl SessionState {
    /// Whether keys are typed into a search text.
    pub fn is_input_mode(&self) -> (r: bool)
        ensures
            r == (self.mode is InputEntry),
    {
        match self.mode {
            InteractionMode::InputEntry(_) => true,
            InteractionMode::Browse => false,
        }
    }

    /// Applies command `c`: the only way a running session's state changes
    /// apart from ticks and a new listing. The result depends on the state
    /// and the command alone; it returns the outside work that is asked for.
    pub fn apply(&mut self, c: Command) -> (e: Effect)
        requires
            well_formed(old(self)@),
        ensures
            final(self)@ == applied(old(self)@, c),
            e == effect_of(old(self)@, c),
            well_formed(final(self)@),
    {
        if !self.running {
            return Effect::Nothing;
        }
        let mut mode = InteractionMode::Browse;
        std::mem::swap(&mut mode, &mut self.mode);
        match (c, mode) {
            (Command::Exit, mode) => {
                self.mode = mode;
                self.running = false;
                Effect::Nothing
            },
            (Command::MoveUp, InteractionMode::Browse) => {
                if self.selection > 0 {
                    self.selection = self.selection - 1;
                }
                Effect::Nothing
            },
            (Command::MoveDown, InteractionMode::Browse) => {
                if self.selection < usize::MAX && self.selection + 1 < self.item_count {
                    self.selection = self.selection + 1;
                }
                Effect::Nothing
            },
            (Command::NextSection, InteractionMode::Browse) => {
                if self.section_count > 0 {
                    self.section_index = if self.section_index + 1 < self.section_count { self.section_index + 1 } else { 0 };
                    self.selection = 0;
                    self.whole_search = false;
                    Effect::Search
                } else {
                    Effect::Nothing
                }
            },
            (Command::PreviousSection, InteractionMode::Browse) => {
                if self.section_count > 0 {
                    self.section_index = if self.section_index > 0 { self.section_index - 1 } else { self.section_count - 1 };
                    self.selection = 0;
                    self.whole_search = false;
                    Effect::Search
                } else {
                    Effect::Nothing
                }
            },
            (Command::EnterSearch, InteractionMode::Browse) => {
                self.mode = InteractionMode::InputEntry(Vec::new());
                Effect::Nothing
            },
            (Command::ToggleDocs, InteractionMode::Browse) => {
                self.show_docs = !self.show_docs;
                Effect::Nothing
            },
            (Command::Save, InteractionMode::Browse) => Effect::Save,
            (Command::Refresh, InteractionMode::Browse) => Effect::Refresh,
            (Command::InputChar(ch), InteractionMode::InputEntry(b)) => {
                let mut b = b;
                b.push(ch);
                self.mode = InteractionMode::InputEntry(b);
                Effect::Nothing
            },
            (Command::EraseChar, InteractionMode::InputEntry(b)) => {
                let mut b = b;
                if b.len() > 0 {
                    b.pop();
                }
                self.mode = InteractionMode::InputEntry(b);
                Effect::Nothing
            },
            (Command::Confirm, InteractionMode::InputEntry(b)) => {
                self.search = b;
                self.selection = 0;
                Effect::Search
            },
            (Command::Cancel, InteractionMode::InputEntry(_)) => Effect::Nothing,
            (_, mode) => {
                self.mode = mode;
                Effect::Nothing
            },
        }
    }

    /// Reacts to a tick as `policy` says: a refresh leaves the state as it
    /// is and asks for the values to be read again; otherwise the session ends.
    pub fn on_tick(&mut self, policy: TickPolicy) -> (e: Effect)
        ensures
            final(self)@ == ticked(old(self)@, policy),
            e == if old(self).running && policy == TickPolicy::Refresh { Effect::Refresh } else { Effect::Nothing },
    {
        if !self.running {
            return Effect::Nothing;
        }
        match policy {
            TickPolicy::Refresh => Effect::Refresh,
            TickPolicy::Terminate => {
                self.running = false;
                Effect::Nothing
            },
        }
    }

    /// Handles one event: a key is classified in the current mode and the
    /// command applied; a tick is handled as `policy` says.
    pub fn step(&mut self, event: Event, policy: TickPolicy) -> (e: Effect)
        requires
            well_formed(old(self)@),
        ensures
            well_formed(final(self)@),
            match event {
                Event::Tick => final(self)@ == ticked(old(self)@, policy)
                    && e == if old(self).running && policy == TickPolicy::Refresh { Effect::Refresh } else { Effect::Nothing },
                Event::KeyPress(k) => {
                    let c = command_for(k, old(self).mode is InputEntry);
                    final(self)@ == applied(old(self)@, c) && e == effect_of(old(self)@, c)
                },
            },
    {
        match event {
            Event::Tick => self.on_tick(policy),
            Event::KeyPress(k) => {
                let input_mode = self.is_input_mode();
                let c = classify(k, input_mode);
                self.apply(c)
            },
        }
    }

    /// Applies the commands of `cs` in order.
    pub fn replay(&mut self, cs: &Vec<Command>)
        requires
            well_formed(old(self)@),
        ensures
            final(self)@ == replayed(old(self)@, cs@),
            well_formed(final(self)@),
    {
        let ghost start = self@;
        let mut i: usize = 0;
        while i < cs.len()
            invariant
                i <= cs@.len(),
                well_formed(self@),
                self@ == replayed(start, cs@.subrange(0, i as int)),
            decreases cs@.len() - i,
        {
            let _ = self.apply(cs[i]);
            proof {
                let next = cs@.subrange(0, i + 1);
                assert(next.drop_last() =~= cs@.subrange(0, i as int));
            }
            i += 1;
        }
        proof {
            assert(cs@.subrange(0, cs@.len() as int) =~= cs@);
        }
    }

    /// The label of the section that the listing is limited to: `all` where
    /// the search covers every section or the cursor is on no label.
    pub fn listing_label(&self, labels: &Vec<String>) -> (r: String)
        ensures
            r@ == if self.whole_search || self.section_index >= labels@.len() {
                "all"@
            } else {
                labels@[self.section_index as int]@
            },
    {
        proof {
            reveal_strlit("all");
        }
        if self.whole_search || self.section_index >= labels.len() {
            String::from_str("all")
        } else {
            labels[self.section_index].clone()
        }
    }

    /// Takes note that `count` parameters are now listed: the selection is
    /// kept where it still lies among them, else it goes to the first.
    pub fn set_item_count(&mut self, count: usize)
        requires
            well_formed(old(self)@),
        ensures
            final(self)@ == (SessionView {
                item_count: count,
                selection: if old(self).selection < count { old(self).selection } else { 0 },
                ..old(self)@
            }),
            well_formed(final(self)@),
    {
        self.item_count = count;
        if self.selection >= count {
            self.selection = 0;
        }
    }
}

/// Index of the first label equal to `label`, or 0 where none is.
pub fn position_or_first(labels: &Vec<String>, label: &String) -> (r: usize)
    ensures
        (exists|j: int| 0 <= j < labels@.len() && labels@[j]@ == label@) ==> {
            &&& r < labels@.len()
            &&& labels@[r as int]@ == label@
            &&& forall|j: int| 0 <= j < r ==> labels@[j]@ != label@
        },
        (forall|j: int| 0 <= j < labels@.len() ==> labels@[j]@ != label@) ==> r == 0,
{
    let mut i: usize = 0;
    while i < labels.len()
        invariant
            i <= labels@.len(),
            forall|j: int| 0 <= j < i ==> labels@[j]@ != label@,
        decreases labels@.len() - i,
    {
        if labels[i] == *label {
            return i;
        }
        i += 1;
    }
    0
}

/// The session's first state, `item_count` parameters being listed: the
/// section cursor is on the section given, where `section_labels` lists it
/// (else on the first label), and the listing reflects the query given, or
/// no search text. A query given here searches every section.
pub fn seeded(item_count: usize, section_labels: &Vec<String>, section: Option<Section>, query: Option<Vec<char>>) -> (s: SessionState)
    ensures
        s@.running,
        s@.mode is Browse,
        s@.selection == 0,
        s@.item_count == item_count,
        s@.section_count == section_labels@.len(),
        s@.search == match query {
            Some(q) => q@,
            None => Seq::empty(),
        },
        s@.whole_search == query is Some,
        s@.show_docs,
        section is None ==> s@.section_index == 0,
        section is Some && (exists|j: int| 0 <= j < section_labels@.len() && section_labels@[j]@ == section_name(section->Some_0)) ==> {
            &&& s@.section_index < section_labels@.len()
            &&& section_labels@[s@.section_index as int]@ == section_name(section->Some_0)
            &&& forall|j: int| 0 <= j < s@.section_index ==> section_labels@[j]@ != section_name(section->Some_0)
        },
        section is Some && (forall|j: int| 0 <= j < section_labels@.len() ==> section_labels@[j]@ != section_name(section->Some_0))
            ==> s@.section_index == 0,
        well_formed(s@),
{
    let section_index = match section {
        Some(sec) => position_or_first(section_labels, &section_label(sec)),
        None => 0,
    };
    let whole_search = query.is_some();
    SessionState {
        running: true,
        mode: InteractionMode::Browse,
        selection: 0,
        item_count,
        section_index,
        section_count: section_labels.len(),
        search: match query {
            Some(q) => q,
            None => Vec::new(),
        },
        whole_search,
        show_docs: true,
    }
}

/// `needle` occurs in `hay` at index `i`.
pub open spec fn occurs_at(hay: Seq<char>, needle: Seq<char>, i: int) -> bool {
    0 <= i && i + needle.len() <= hay.len() && hay.subrange(i, i + needle.len()) == needle
}

/// `needle` occurs somewhere in `hay`.
pub open spec fn occurs_in(hay: Seq<char>, needle: Seq<char>) -> bool {
    exists|i: int| occurs_at(hay, needle, i)
}

/// Whether `needle` occurs in `hay` as a run of consecutive characters.
pub fn contains_text(hay: &Vec<char>, needle: &Vec<char>) -> (r: bool)
    ensures
        r == occurs_in(hay@, needle@),
{
    if needle.len() > hay.len() {
        proof {
            assert forall|i: int| !occurs_at(hay@, needle@, i) by {}
        }
        return false;
    }
    let hay_len = hay.len();
    let last = hay_len - needle.len();
    let mut i: usize = 0;
    while i <= last
        invariant
            hay_len == hay@.len(),
            last == hay@.len() - needle@.len(),
            needle@.len() <= hay@.len(),
            i <= last + 1,
            forall|k: int| 0 <= k < i ==> !occurs_at(hay@, needle@, k),
        decreases last + 1 - i,
    {
        let mut j: usize = 0;
        let mut same = true;
        while j < needle.len()
            invariant
                i <= last,
                hay_len == hay@.len(),
                last == hay@.len() - needle@.len(),
                needle@.len() <= hay@.len(),
                j <= needle@.len(),
                same == forall|t: int| 0 <= t < j ==> hay@[i + t] == needle@[t],
            decreases needle@.len() - j,
        {
            assert(i + j < hay_len);
            if hay[i + j] != needle[j] {
                same = false;
            }
            j += 1;
        }
        if same {
            proof {
                assert(hay@.subrange(i as int, i + needle@.len()) =~= needle@);
                assert(occurs_at(hay@, needle@, i as int));
            }
            return true;
        }
        proof {
            if occurs_at(hay@, needle@, i as int) {
                let t = choose|t: int| 0 <= t < needle@.len() && hay@[i + t] != needle@[t];
                assert(hay@.subrange(i as int, i + needle@.len())[t] == hay@[i + t]);
            }
        }
        if i == last {
            proof {
                assert forall|k: int| !occurs_at(hay@, needle@, k) by {
                    if 0 <= k && k <= i {
                    }
                }
            }
            return false;
        }
        i += 1;
    }
    false
}

/// Whether a parameter is listed: its section is the one selected (any
/// section where `all` is selected) and the search text occurs in its name.
pub fn is_listed(name: &Vec<char>, section: Section, selected: &String, search: &Vec<char>) -> (r: bool)
    ensures
        r == listed(name@, section, selected@, search@),
{
    let all = String::from_str("all");
    proof {
        reveal_strlit("all");
    }
    let in_section = *selected == all || *selected == section_label(section);
    in_section && contains_text(name, search)
}

/// Whether a parameter named `name` in `section` is listed under the
/// section label `selected` and the search text `search`.
pub open spec fn listed(name: Seq<char>, section: Section, selected: Seq<char>, search: Seq<char>) -> bool {
    (selected == "all"@ || selected == section_name(section)) && occurs_in(name, search)
}

/// The indices, in order, of the first `n` parameters that are listed.
pub open spec fn listed_indices(names: Seq<Vec<char>>, sections: Seq<Section>, selected: Seq<char>, search: Seq<char>, n: int) -> Seq<usize>
    decreases n,
{
    if n <= 0 {
        Seq::empty()
    } else {
        let earlier = listed_indices(names, sections, selected, search, n - 1);
        if listed(names[n - 1]@, sections[n - 1], selected, search) {
            earlier.push((n - 1) as usize)
        } else {
            earlier
        }
    }
}

/// The indices of the parameters, named `names` and in `sections`, that are
/// listed under the section label `selected` and the search text `search`.
pub fn listing(names: &Vec<Vec<char>>, sections: &Vec<Section>, selected: &String, search: &Vec<char>) -> (r: Vec<usize>)
    requires
        names@.len() == sections@.len(),
    ensures
        r@ == listed_indices(names@, sections@, selected@, search@, names@.len() as int),
{
    let mut r: Vec<usize> = Vec::new();
    let mut i: usize = 0;
    while i < names.len()
        invariant
            i <= names@.len(),
            names@.len() == sections@.len(),
            r@ == listed_indices(names@, sections@, selected@, search@, i as int),
        decreases names@.len() - i,
    {
        if is_listed(&names[i], sections[i], selected, search) {
            r.push(i);
        }
        i += 1;
    }
    r
}

} // verus!
