//! The console's state machine: tab selection, input editing and shutdown,
//! driven by key events.  The terminal backend translates its own key type
//! into `Key` and renders the state; none of that happens here.

use vstd::prelude::*;

verus! {

/// Tab selection state.
pub struct TabsState {
    pub titles: Vec<String>,
    pub index: usize,
}

impl TabsState {
    /// The selected tab always exists.
    pub open spec fn wf(&self) -> bool {
        self.index < self.titles@.len()
    }

    /// Select the first of the given tabs; there must be at least one.
    pub fn new(titles: Vec<String>) -> (r: TabsState)
        requires
            titles@.len() > 0,
        ensures
            r.wf(),
            r.titles == titles,
            r.index == 0,
    {
        TabsState { titles, index: 0 }
    }

    /// Step to the next tab, wrapping around.
    pub fn next(&mut self)
        requires
            old(self).wf(),
        ensures
            final(self).wf(),
            final(self).titles == old(self).titles,
            final(self).index == ((old(self).index + 1) as int) % (old(self).titles@.len() as int),
    {
        let n = self.titles.len();
        self.index = (self.index + 1) % n;
    }

    /// Step to the previous tab, wrapping around.
    pub fn previous(&mut self)
        requires
            old(self).wf(),
        ensures
            final(self).wf(),
            final(self).titles == old(self).titles,
            final(self).index == if old(self).index > 0 {
                (old(self).index - 1) as usize
            } else {
                (old(self).titles@.len() - 1) as usize
            },
    {
        if self.index > 0 {
            self.index -= 1;
        } else {
            self.index = self.titles.len() - 1;
        }
    }
}

/// Whether the console keeps running.
#[derive(Debug, PartialEq, Eq, Structural)]
pub enum AppStatus {
    CONTINUE,
    SHUTDOWN,
}

/// Whether keys navigate or edit the input line.
#[derive(Debug, PartialEq, Eq, Structural)]
pub enum InputMode {
    Normal,
    Editing,
}

/// A key event, as the console understands it.
#[derive(Debug, Copy, Clone, PartialEq, Eq, Structural)]
pub enum Key {
    Char(char),
    Left,
    Right,
    Tab,
    Enter,
    Backspace,
    Esc,
    Other,
}

/// The console's mutable state.
pub struct AppState {
    pub tabs: TabsState,
    /// The selected row of each table widget.
    pub tables: Vec<usize>,
    pub input: Vec<char>,
    pub input_mode: InputMode,
    pub input_history: Vec<Vec<char>>,
    pub boost: bool,
    pub tick_rate: u64,
}

/// The data the console displays.
pub struct AppData {
    pub server: String,
    pub agents: Vec<String>,
}

/// The console.
pub struct App {
    pub title: String,
    pub status: AppStatus,
    pub state: AppState,
    pub data: AppData,
}

impl App {
    pub open spec fn wf(&self) -> bool {
        self.state.tabs.wf() && self.state.tabs.titles@.len() == 3
    }

    /// A fresh console: three tabs with the command tab selected, normal
    /// mode, empty input and history.
    pub fn new(title: String, boost: bool, tick_rate: u64) -> (r: App)
        ensures
            r.wf(),
            r.title == title,
            r.status is CONTINUE,
            r.state.tabs.index == 0,
            r.state.tabs.titles@.len() == 3,
            r.state.input@.len() == 0,
            r.state.input_mode is Normal,
            r.state.input_history@.len() == 0,
            r.state.boost == boost,
            r.state.tick_rate == tick_rate,
    {
        let titles: Vec<String> = vec![
            String::from_str("cmd"),
            String::from_str("1"),
            String::from_str("2"),
        ];
        let tabs = TabsState::new(titles);
        let tables: Vec<usize> = vec![0];
        let data = AppData {
            server: String::from_str("127.0.0.1"),
            agents: vec![String::from_str("agent0"), String::from_str("agent1")],
        };
        let state = AppState {
            tabs,
            tables,
            input: Vec::new(),
            input_mode: InputMode::Normal,
            input_history: Vec::new(),
            boost,
            tick_rate,
        };
        App { title, status: AppStatus::CONTINUE, state, data }
    }

    /// Route a key to the handler for the current input mode.
    pub fn on_key(&mut self, key: Key)
        requires
            old(self).wf(),
        ensures
            final(self).wf(),
    {
        match self.state.input_mode {
            InputMode::Normal => self.on_key_normal(key),
            InputMode::Editing => self.on_key_editing(key),
        }
    }

    /// Keys in normal mode: `q` shuts down, digits and the backtick pick a
    /// tab, `:` enters editing mode, arrows and tab cycle the tabs; anything
    /// else does nothing.
    pub fn on_key_normal(&mut self, key: Key)
        requires
            old(self).wf(),
        ensures
            final(self).wf(),
            final(self).state.tabs.titles == old(self).state.tabs.titles,
            match key {
                Key::Char(c) => {
                    &&& (c == 'q' ==> final(self).status is SHUTDOWN)
                    &&& (c == '0' || c == '`' ==> final(self).state.tabs.index == 0)
                    &&& (c == '1' ==> final(self).state.tabs.index == 1)
                    &&& (c == '2' ==> final(self).state.tabs.index == 2)
                    &&& (c == ':' ==> final(self).state.input_mode is Editing)
                    &&& (c != 'q' && c != '0' && c != '1' && c != '2' && c != ':' && c != '`'
                        ==> *final(self) == *old(self))
                },
                Key::Left => final(self).state.tabs.index == if old(self).state.tabs.index > 0 {
                    (old(self).state.tabs.index - 1) as usize
                } else {
                    (old(self).state.tabs.titles@.len() - 1) as usize
                },
                Key::Right => final(self).state.tabs.index == ((old(self).state.tabs.index + 1) as int) % (old(self).state.tabs.titles@.len() as int),
                Key::Tab => final(self).state.tabs.index == ((old(self).state.tabs.index + 1) as int) % (old(self).state.tabs.titles@.len() as int),
                _ => *final(self) == *old(self),
            },
    {
        match key {
            Key::Char(c) => {
                if c == 'q' {
                    self.status = AppStatus::SHUTDOWN;
                } else if c == '0' {
                    self.state.tabs.index = 0;
                } else if c == '1' {
                    self.state.tabs.index = 1;
                } else if c == '2' {
                    self.state.tabs.index = 2;
                } else if c == ':' {
                    self.state.input_mode = InputMode::Editing;
                } else if c == '`' {
                    self.state.tabs.index = 0;
                }
            },
            Key::Left => {
                self.state.tabs.previous();
            },
            Key::Right => {
                self.state.tabs.next();
            },
            Key::Tab => {
                self.state.tabs.next();
            },
            _ => {},
        }
    }

    /// Keys in editing mode: enter records the line into the history and
    /// clears the input, characters append, backspace deletes, escape leaves
    /// editing mode; anything else does nothing.
    pub fn on_key_editing(&mut self, key: Key)
        requires
            old(self).wf(),
        ensures
            final(self).wf(),
            match key {
                Key::Enter => final(self).state.input_history@ == old(self).state.input_history@.push(old(self).state.input) && final(self).state.input@
                    == Seq::<char>::empty(),
                Key::Char(c) => final(self).state.input@ == old(self).state.input@.push(c),
                Key::Backspace => final(self).state.input@ == old(self).state.input@.drop_last() || (old(self).state.input@.len() == 0 && final(self).state.input@.len() == 0),
                Key::Esc => final(self).state.input_mode is Normal,
                _ => *final(self) == *old(self),
            },
    {
        match key {
            Key::Enter => {
                let mut line: Vec<char> = Vec::new();
                core::mem::swap(&mut line, &mut self.state.input);
                self.state.input_history.push(line);
            },
            Key::Char(c) => {
                self.state.input.push(c);
            },
            Key::Backspace => {
                let _ = self.state.input.pop();
            },
            Key::Esc => {
                self.state.input_mode = InputMode::Normal;
            },
            _ => {},
        }
    }

    /// The periodic tick: nothing to do yet.
    pub fn on_tick(&mut self)
        ensures
            *final(self) == *old(self),
    {
    }
}

} // verus!
