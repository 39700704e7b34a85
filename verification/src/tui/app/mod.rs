//! The front end's state and what a key press does to it.
//!
//! [`App`] is a state machine: [`App::handle_input`] takes a key event and
//! returns what the caller has to do about it. Dialing a peer is the caller's
//! part; a socket that was dialed comes back through
//! [`App::handle_add_connection`].

pub mod connection_list;
pub mod message_box;
pub mod text_area;

use connection_list::can_step;
use connection_list::clamped_selection;
use connection_list::stepped_selection;
use connection_list::ConnectionList;
use text_area::TextArea;
use text_area::TextAreaView;
use vstd::prelude::*;

verus! {

/// The mode that the front end is in.
#[derive(Debug, PartialEq, Eq, Clone, Copy, Structural)]
pub enum AppState {
    Normal,
    Writing,
    Closing,
    AddingConnection,
    ConfirmingConnection,
}

/// The keys that the front end tells apart.
#[derive(Debug, PartialEq, Eq, Clone, Copy, Structural)]
pub enum KeyCode {
    Backspace,
    Enter,
    Left,
    Right,
    Up,
    Down,
    Tab,
    Delete,
    Esc,
    Char(char),
    Other,
}

/// Whether a key went down, is held, or came up.
#[derive(Debug, PartialEq, Eq, Clone, Copy, Structural)]
pub enum KeyEventKind {
    Press,
    Repeat,
    Release,
}

/// One event of the keyboard.
#[derive(Debug, PartialEq, Eq, Clone, Copy, Structural)]
pub struct KeyEvent {
    pub code: KeyCode,
    pub kind: KeyEventKind,
}

/// What the caller has to do after a key event.
#[derive(Debug)]
pub enum Action {
    /// Nothing.
    Nothing,
    /// Dial the peer at this address and, if that succeeds, hand the
    /// connection to [`App::handle_add_connection`].
    Connect(String),
}

/// A text input after a key that edits text; any other key leaves it alone.
pub open spec fn edited(area: TextAreaView, code: KeyCode) -> TextAreaView {
    match code {
        KeyCode::Char(chr) => area.entered(chr),
        KeyCode::Backspace => area.deleted(),
        KeyCode::Left => area.moved_left(),
        KeyCode::Right => area.moved_right(),
        KeyCode::Delete => area.moved_right().deleted(),
        _ => area,
    }
}

/// The step that a key of the normal mode moves the selection by, if it is
/// one of the keys that move it.
pub open spec fn selection_step(code: KeyCode) -> Option<i32> {
    if code == KeyCode::Down || code == KeyCode::Char('j') {
        Some(1i32)
    } else if code == KeyCode::Up || code == KeyCode::Char('k') {
        Some(-1i32)
    } else {
        None
    }
}

/// The front end's state as contracts see it.
pub ghost struct AppView<C> {
    pub connections: Seq<C>,
    pub selected: Option<usize>,
    pub input: TextAreaView,
    pub state: AppState,
    pub popup: TextAreaView,
}

impl<C> AppView<C> {
    /// The state after a key in the normal mode.
    pub open spec fn after_normal_key(self, code: KeyCode) -> AppView<C> {
        if code == KeyCode::Esc || code == KeyCode::Char('q') {
            AppView { state: AppState::Closing, ..self }
        } else if selection_step(code) is Some {
            AppView {
                selected: stepped_selection(
                    self.selected,
                    self.connections.len(),
                    selection_step(code)->0,
                ),
                ..self
            }
        } else if code == KeyCode::Char('c') {
            AppView { input: self.input.cleared(), ..self }
        } else if code == KeyCode::Char('a') {
            AppView { state: AppState::AddingConnection, ..self }
        } else if code == KeyCode::Char('i') || code == KeyCode::Tab || code == KeyCode::Enter {
            if self.selected is Some {
                AppView { state: AppState::Writing, ..self }
            } else {
                self
            }
        } else {
            self
        }
    }

    /// The state after a key while a message is written.
    pub open spec fn after_writing_key(self, code: KeyCode) -> AppView<C> {
        if code == KeyCode::Esc {
            AppView { state: AppState::Normal, ..self }
        } else {
            AppView { input: edited(self.input, code), ..self }
        }
    }

    /// The state after a key while a peer's address is typed in.
    pub open spec fn after_adding_key(self, code: KeyCode) -> AppView<C> {
        if code == KeyCode::Esc {
            AppView { state: AppState::Normal, ..self }
        } else {
            AppView { popup: edited(self.popup, code), ..self }
        }
    }

    /// Whether the front end has an answer to this key event. It has none to
    /// a key press while a connection is being confirmed, to Enter while a
    /// message is written, or to a key that moves the selection where the
    /// selection cannot be moved.
    pub open spec fn handles(self, key: KeyEvent) -> bool {
        key.kind == KeyEventKind::Press ==> match self.state {
            AppState::Normal => selection_step(key.code) is Some ==> can_step(
                self.selected,
                self.connections.len(),
                selection_step(key.code)->0,
            ),
            AppState::Writing => key.code != KeyCode::Enter,
            AppState::AddingConnection => true,
            AppState::ConfirmingConnection => false,
            AppState::Closing => true,
        }
    }

    /// The state after a key event. Only a key that went down counts.
    pub open spec fn after_key(self, key: KeyEvent) -> AppView<C> {
        if key.kind != KeyEventKind::Press {
            self
        } else {
            match self.state {
                AppState::Normal => self.after_normal_key(key.code),
                AppState::Writing => self.after_writing_key(key.code),
                AppState::AddingConnection => self.after_adding_key(key.code),
                AppState::ConfirmingConnection => self,
                AppState::Closing => self,
            }
        }
    }

    /// The address that the caller is to dial after a key event: the text of
    /// the address input when Enter went down on it.
    pub open spec fn address_to_dial(self, key: KeyEvent) -> Option<Seq<char>> {
        if key.kind == KeyEventKind::Press && self.state == AppState::AddingConnection && key.code
            == KeyCode::Enter {
            Some(self.popup.content)
        } else {
            None
        }
    }

    /// The state after a peer was dialed: its connection is the last entry
    /// and selected, and the address input is empty again.
    pub open spec fn with_dialed(self, connection: C) -> AppView<C> {
        AppView {
            connections: self.connections.push(connection),
            selected: Some(usize::MAX),
            popup: self.popup.cleared(),
            ..self
        }
    }
}

/// The view of an action: the address to dial, if any.
pub open spec fn action_view(action: Action) -> Option<Seq<char>> {
    match action {
        Action::Nothing => None,
        Action::Connect(address) => Some(address@),
    }
}

/// The front end: the registry of connections, the message input, the mode,
/// and the input for a peer's address, which is titled with this side's own.
pub struct App<C> {
    pub connection_list: ConnectionList<C>,
    pub input_widget: TextArea,
    pub state: AppState,
    pub adding_connection_popup: TextArea,
}

impl<C> View for App<C> {
    type V = AppView<C>;

    open spec fn view(&self) -> AppView<C> {
        AppView {
            connections: self.connection_list.connections@,
            selected: self.connection_list.selected,
            input: self.input_widget@,
            state: self.state,
            popup: self.adding_connection_popup@,
        }
    }
}

impl<C> App<C> {
    /// The front end at its start, for a listener bound at `address`.
    pub fn new(address: String) -> (app: App<C>)
        ensures
            app@.connections == Seq::<C>::empty(),
            app@.selected is None,
            app@.state == AppState::Normal,
            app@.input == (TextAreaView { content: Seq::empty(), cursor: 0, title: "Message"@ }),
            app@.popup == (TextAreaView { content: Seq::empty(), cursor: 0, title: address@ }),
    {
        App {
            connection_list: ConnectionList::new(),
            input_widget: TextArea::new("Message".to_owned()),
            state: AppState::Normal,
            adding_connection_popup: TextArea::new(address),
        }
    }

    /// Whether `update_connection_list` can be called: a selection needs a
    /// connection to fall back on.
    pub fn can_update(&self) -> (ok: bool)
        ensures
            ok == (self@.selected is Some ==> self@.connections.len() > 0),
    {
        self.connection_list.can_update()
    }

    /// Brings the selection up to date with the number of connections.
    pub fn update_connection_list(&mut self)
        requires
            old(self)@.selected is Some ==> old(self)@.connections.len() > 0,
        ensures
            final(self)@ == (AppView {
                selected: clamped_selection(old(self)@.selected, old(self)@.connections.len()),
                ..old(self)@
            }),
    {
        self.connection_list.update();
    }

    /// Whether `handle_input` has an answer to this key event.
    pub fn accepts(&self, key: &KeyEvent) -> (ok: bool)
        ensures
            ok == self@.handles(*key),
    {
        if key.kind != KeyEventKind::Press {
            return true;
        }
        match self.state {
            AppState::Normal => match key.code {
                KeyCode::Down | KeyCode::Char('j') => self.connection_list.can_iterate(1),
                KeyCode::Up | KeyCode::Char('k') => self.connection_list.can_iterate(-1),
                _ => true,
            },
            AppState::Writing => key.code != KeyCode::Enter,
            AppState::AddingConnection => true,
            AppState::ConfirmingConnection => false,
            AppState::Closing => true,
        }
    }

    /// Takes a key event and says what the caller has to do about it.
    pub fn handle_input(&mut self, key: &KeyEvent) -> (action: Action)
        requires
            old(self)@.handles(*key),
        ensures
            final(self)@ == old(self)@.after_key(*key),
            action_view(action) == old(self)@.address_to_dial(*key),
    {
        if key.kind != KeyEventKind::Press {
            return Action::Nothing;
        }
        match self.state {
            AppState::Normal => {
                self.handle_normal_input(key);
                Action::Nothing
            },
            AppState::Writing => {
                self.handle_writting_input(key);
                Action::Nothing
            },
            AppState::AddingConnection => self.handle_adding_connection_input(key),
            AppState::ConfirmingConnection => Action::Nothing,
            AppState::Closing => Action::Nothing,
        }
    }

    fn handle_adding_connection_input(&mut self, key: &KeyEvent) -> (action: Action)
        ensures
            final(self)@ == old(self)@.after_adding_key(key.code),
            key.code == KeyCode::Enter ==> action_view(action) == Some(old(self)@.popup.content),
            key.code != KeyCode::Enter ==> action_view(action) is None,
    {
        match key.code {
            KeyCode::Esc => {
                self.state = AppState::Normal;
            },
            KeyCode::Char(c) => {
                self.adding_connection_popup.enter_char(c);
            },
            KeyCode::Backspace => {
                self.adding_connection_popup.delete_current_char();
            },
            KeyCode::Left => {
                self.adding_connection_popup.move_cursor_left();
            },
            KeyCode::Right => {
                self.adding_connection_popup.move_cursor_right();
            },
            KeyCode::Enter => {
                return Action::Connect(self.adding_connection_popup.content.clone());
            },
            KeyCode::Delete => {
                self.adding_connection_popup.move_cursor_right();
                self.adding_connection_popup.delete_current_char();
            },
            _ => {},
        }
        Action::Nothing
    }

    /// Takes in the connection to a peer that was dialed at the address
    /// input's text: it becomes the last entry and is selected, and the
    /// address input is emptied.
    pub fn handle_add_connection(&mut self, connection: C)
        ensures
            final(self)@ == old(self)@.with_dialed(connection),
    {
        self.connection_list.push(connection);
        self.adding_connection_popup.clear_input();
        self.connection_list.selected = Some(usize::MAX);
    }

    fn handle_normal_input(&mut self, key: &KeyEvent)
        requires
            selection_step(key.code) is Some ==> can_step(
                old(self)@.selected,
                old(self)@.connections.len(),
                selection_step(key.code)->0,
            ),
        ensures
            final(self)@ == old(self)@.after_normal_key(key.code),
    {
        match key.code {
            KeyCode::Esc | KeyCode::Char('q') => self.closing_sequence(),
            KeyCode::Down | KeyCode::Char('j') => self.connection_list.iterate_selected(1),
            KeyCode::Up | KeyCode::Char('k') => self.connection_list.iterate_selected(-1),
            KeyCode::Char('c') => self.input_widget.clear_input(),
            KeyCode::Char('a') => {
                self.state = AppState::AddingConnection;
            },
            KeyCode::Char('i') | KeyCode::Tab | KeyCode::Enter => self.hanlde_select_connection(),
            _ => {},
        }
    }

    fn hanlde_select_connection(&mut self)
        ensures
            old(self)@.selected is Some ==> final(self)@ == (AppView {
                state: AppState::Writing,
                ..old(self)@
            }),
            old(self)@.selected is None ==> final(self)@ == old(self)@,
    {
        if self.connection_list.selected.is_none() {
            return ;
        }
        self.state = AppState::Writing;
    }

    fn handle_writting_input(&mut self, key: &KeyEvent)
        requires
            key.code != KeyCode::Enter,
        ensures
            final(self)@ == old(self)@.after_writing_key(key.code),
    {
        match key.code {
            KeyCode::Esc => {
                self.state = AppState::Normal;
            },
            KeyCode::Char(c) => self.input_widget.enter_char(c),
            KeyCode::Backspace => self.input_widget.delete_current_char(),
            KeyCode::Left => self.input_widget.move_cursor_left(),
            KeyCode::Right => self.input_widget.move_cursor_right(),
            KeyCode::Delete => {
                self.input_widget.move_cursor_right();
                self.input_widget.delete_current_char();
            },
            _ => {},
        }
    }

    fn closing_sequence(&mut self)
        ensures
            final(self)@ == (AppView { state: AppState::Closing, ..old(self)@ }),
    {
        self.state = AppState::Closing;
    }
}

} // verus!
