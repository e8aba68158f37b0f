//! What the player does on a key press, a paste, a message or a tick.
//!
//! The terminal, the audio device and the file system are not reached from
//! here. The functions of this module change the player's state and hand
//! back what is to be done outside of it, as a [`Command`].

use crate::playback::service::{
    initial_service, playlist_step, single_step, AudioEvent, AudioService, AudioServiceView,
    SinkCommand, SinkCommandView,
};
use crate::controls::{LoopMode, MuteSound, SignalMessage, Volume};
use crate::downloader::client::{first_present, url_captures, YoutubeClient};
use crate::downloader::persona::AndroidClient;
use crate::library::{files_after, names_view, AudioFolder};
use crate::text_input::TextInput;
use vstd::prelude::*;

verus! {

/// The part of the screen that takes the keys.
#[derive(Debug, Copy, Clone, PartialEq, Eq, Structural)]
pub enum Focus {
    FolderList,
    Buttons,
    Popup,
}

/// A key, as far as the player tells keys apart.
#[derive(Debug, Copy, Clone, PartialEq, Eq, Structural)]
pub enum Key {
    Char(char),
    Tab,
    Enter,
    /// A function key with its number.
    F(u8),
    Up,
    Down,
    Left,
    Right,
    Other,
}

/// What the terminal reports.
#[derive(Debug, PartialEq, Eq)]
pub enum InputEvent {
    Key(Key),
    Paste(String),
    Other,
}

/// The mathematical value of an [`InputEvent`].
pub enum InputEventView {
    Key(Key),
    Paste(Seq<char>),
    Other,
}

impl View for InputEvent {
    type V = InputEventView;

    open spec fn view(&self) -> InputEventView {
        match self {
            InputEvent::Key(key) => InputEventView::Key(*key),
            InputEvent::Paste(text) => InputEventView::Paste(text@),
            InputEvent::Other => InputEventView::Other,
        }
    }
}

/// What is to be done outside of the player's state.
#[derive(Debug, PartialEq, Eq)]
pub enum Command {
    /// Acquire the video with this identifier in the background.
    Download(String),
    /// List the library folder and hand the listing to `load_folder`.
    ReloadFolder,
    /// Resume the output.
    Play,
    /// Pause the output.
    Pause,
    /// Silence the output.
    Mute,
    /// Give the output its volume back.
    Unmute,
    /// Raise the volume by one step and note the time.
    IncreaseVolume,
    /// Lower the volume by one step and note the time.
    DecreaseVolume,
}

/// The mathematical value of a [`Command`].
pub enum CommandView {
    Download(Seq<char>),
    ReloadFolder,
    Play,
    Pause,
    Mute,
    Unmute,
    IncreaseVolume,
    DecreaseVolume,
}

impl View for Command {
    type V = CommandView;

    open spec fn view(&self) -> CommandView {
        match self {
            Command::Download(id) => CommandView::Download(id@),
            Command::ReloadFolder => CommandView::ReloadFolder,
            Command::Play => CommandView::Play,
            Command::Pause => CommandView::Pause,
            Command::Mute => CommandView::Mute,
            Command::Unmute => CommandView::Unmute,
            Command::IncreaseVolume => CommandView::IncreaseVolume,
            Command::DecreaseVolume => CommandView::DecreaseVolume,
        }
    }
}

/// The view of an optional command.
pub open spec fn command_view(command: Option<Command>) -> Option<CommandView> {
    match command {
        Some(command) => Some(command@),
        None => None,
    }
}

/// The index of the mute button.
pub const MUTE_BUTTON: usize = 0;

/// The index of the volume button.
pub const VOLUME_BUTTON: usize = 1;

/// The index of the button for the previous track.
pub const PREVIOUS_BUTTON: usize = 2;

/// The index of the button that plays and pauses.
pub const PLAY_BUTTON: usize = 3;

/// The index of the button for the next track.
pub const NEXT_BUTTON: usize = 4;

/// The index of the button for the loop mode.
pub const MODE_BUTTON: usize = 5;

/// The time in milliseconds for which a change of the volume stays on
/// display.
pub const VOLUME_DISPLAY_MILLIS: u64 = 120;

/// The state of the player.
#[derive(Debug)]
pub struct App {
    /// The selected row of the file list.
    pub selected: Option<usize>,
    pub audio_service: AudioService,
    pub audio_folder: AudioFolder,
    /// The labels of the buttons as they were last drawn.
    pub buttons: Vec<&'static str>,
    pub button_index: usize,
    pub focus: Focus,
    pub should_quit: bool,
    pub text: TextInput,
    pub loop_mode: LoopMode,
    pub volume: Volume,
    pub mute_sound: MuteSound,
    pub show_help: bool,
}

/// The mathematical value of an [`App`].
pub struct AppView {
    pub selected: Option<usize>,
    pub service: AudioServiceView,
    pub folder_path: Seq<char>,
    pub files: Seq<Seq<char>>,
    pub buttons: Seq<Seq<char>>,
    pub button_index: usize,
    pub focus: Focus,
    pub should_quit: bool,
    pub text: Seq<char>,
    pub cursor: int,
    pub loop_mode: LoopMode,
    pub volume: Volume,
    pub mute_sound: MuteSound,
    pub show_help: bool,
}

impl View for App {
    type V = AppView;

    open spec fn view(&self) -> AppView {
        AppView {
            selected: self.selected,
            service: self.audio_service@,
            folder_path: self.audio_folder.path@,
            files: names_view(self.audio_folder.files@),
            buttons: Seq::new(self.buttons@.len(), |i: int| self.buttons@[i]@),
            button_index: self.button_index,
            focus: self.focus,
            should_quit: self.should_quit,
            text: self.text.text(),
            cursor: self.text.position(),
            loop_mode: self.loop_mode,
            volume: self.volume,
            mute_sound: self.mute_sound,
            show_help: self.show_help,
        }
    }
}

/// The labels of the six buttons, in their order on the screen.
pub open spec fn button_labels(state: AppView) -> Seq<Seq<char>> {
    seq![
        state.mute_sound.label(),
        state.volume.label(),
        "⏮️"@,
        "⏯️"@,
        "⏭️"@,
        state.loop_mode.label(),
    ]
}

/// The state of a player that lists the folder `output_dir`.
pub open spec fn initial_app(output_dir: Seq<char>) -> AppView {
    AppView {
        selected: Some(0),
        service: initial_service(),
        folder_path: output_dir + "/*"@,
        files: Seq::empty(),
        buttons: Seq::empty(),
        button_index: 0,
        focus: Focus::FolderList,
        should_quit: false,
        text: Seq::empty(),
        cursor: 0,
        loop_mode: LoopMode::Single,
        volume: Volume::Normal,
        mute_sound: MuteSound::Off,
        show_help: false,
    }
}

impl AppView {
    /// The state with the next loop mode, which the service follows.
    pub open spec fn toggled_mode(self) -> AppView {
        AppView {
            loop_mode: self.loop_mode.successor(),
            service: AudioServiceView { loop_mode: self.loop_mode.successor(), ..self.service },
            ..self
        }
    }

    /// The state after the mute button, and what the output is to do.
    pub open spec fn toggled_mute(self) -> (AppView, CommandView) {
        if self.mute_sound == MuteSound::Off {
            (AppView { mute_sound: MuteSound::On, ..self }, CommandView::Mute)
        } else {
            (AppView { mute_sound: MuteSound::Off, ..self }, CommandView::Unmute)
        }
    }

    /// The row below `row` in a list of `len` rows, the first below the last.
    pub open spec fn row_below(row: usize, len: usize) -> usize {
        ((row + 1) % (len as int)) as usize
    }

    /// The row above `row` in a list of `len` rows, the last above the first.
    pub open spec fn row_above(row: usize, len: usize) -> usize {
        if row == 0 {
            (len - 1) as usize
        } else {
            (row - 1) as usize
        }
    }

    /// The track after `row` in a list of `len` tracks, the first after the
    /// last.
    pub open spec fn track_after(row: usize, len: usize) -> usize {
        if row == len - 1 {
            0
        } else {
            (row + 1) as usize
        }
    }

    /// The state with the selection moved one row down.
    pub open spec fn next_folder(self) -> AppView {
        AppView {
            selected: Some(
                match self.selected {
                    Some(row) => Self::row_below(row, self.files.len() as usize),
                    None => 0,
                },
            ),
            ..self
        }
    }

    /// The state with the selection moved one row up.
    pub open spec fn prev_folder(self) -> AppView {
        AppView {
            selected: Some(
                match self.selected {
                    Some(row) => Self::row_above(row, self.files.len() as usize),
                    None => 0,
                },
            ),
            ..self
        }
    }

    /// The state with the next button marked.
    pub open spec fn next_button(self) -> AppView {
        AppView {
            button_index: Self::row_below(self.button_index, self.buttons.len() as usize),
            ..self
        }
    }

    /// The state with the previous button marked.
    pub open spec fn prev_button(self) -> AppView {
        AppView {
            button_index: Self::row_above(self.button_index, self.buttons.len() as usize),
            ..self
        }
    }

    /// The state with the track `row` selected for playing.
    pub open spec fn cued(self, row: usize) -> AppView {
        AppView {
            service: AudioServiceView {
                current_playlist_index: row,
                audio_event: AudioEvent::Play,
                ..self.service
            },
            selected: Some(row),
            ..self
        }
    }

    /// The state after the marked button was pressed while `row` is
    /// selected, and what is to be done.
    pub open spec fn pressed(self, row: usize) -> (AppView, Option<CommandView>) {
        if self.button_index == PLAY_BUTTON {
            if self.service.audio_event == AudioEvent::Pause {
                (
                    AppView {
                        service: AudioServiceView {
                            current_playlist_index: row,
                            audio_event: AudioEvent::Play,
                            ..self.service
                        },
                        ..self
                    },
                    Some(CommandView::Play),
                )
            } else {
                (
                    AppView {
                        service: AudioServiceView {
                            current_playlist_index: row,
                            audio_event: AudioEvent::Pause,
                            ..self.service
                        },
                        ..self
                    },
                    Some(CommandView::Pause),
                )
            }
        } else if self.button_index == NEXT_BUTTON {
            (self.cued(Self::track_after(row, self.files.len() as usize)), Some(CommandView::Play))
        } else if self.button_index == PREVIOUS_BUTTON {
            (self.cued(Self::row_above(row, self.files.len() as usize)), Some(CommandView::Play))
        } else if self.button_index == MUTE_BUTTON {
            (self.toggled_mute().0, Some(self.toggled_mute().1))
        } else if self.button_index == MODE_BUTTON {
            (self.toggled_mode(), None)
        } else {
            (self, None)
        }
    }

    /// The state after a key, and what is to be done.
    pub open spec fn after_key(self, key: Key) -> (AppView, Option<CommandView>) {
        if key == Key::Char('q') {
            (AppView { should_quit: true, ..self }, None)
        } else if key == Key::Tab {
            (
                AppView {
                    focus: if self.focus == Focus::Buttons {
                        Focus::FolderList
                    } else {
                        Focus::Buttons
                    },
                    ..self
                },
                None,
            )
        } else if key == Key::Char('/') || key == Key::F(1) {
            (AppView { show_help: !self.show_help, ..self }, None)
        } else if key == Key::Char('s') {
            if self.focus == Focus::Popup {
                (AppView { focus: Focus::FolderList, text: Seq::empty(), cursor: 0, ..self }, None)
            } else {
                (AppView { focus: Focus::Popup, ..self }, None)
            }
        } else if key == Key::Enter && self.focus == Focus::Popup {
            (
                AppView { focus: Focus::FolderList, text: Seq::empty(), cursor: 0, ..self },
                match first_present(url_captures(self.text)) {
                    Some(id) => Some(CommandView::Download(id)),
                    None => None,
                },
            )
        } else if key == Key::Char('r') {
            (self, Some(CommandView::ReloadFolder))
        } else if key == Key::Char('j') || key == Key::Down {
            if self.focus == Focus::FolderList {
                (self.next_folder(), None)
            } else if self.focus == Focus::Buttons && self.button_index == VOLUME_BUTTON {
                (AppView { volume: Volume::Down, ..self }, Some(CommandView::DecreaseVolume))
            } else {
                (self, None)
            }
        } else if key == Key::Char('k') || key == Key::Up {
            if self.focus == Focus::FolderList {
                (self.prev_folder(), None)
            } else if self.focus == Focus::Buttons && self.button_index == VOLUME_BUTTON {
                (AppView { volume: Volume::Up, ..self }, Some(CommandView::IncreaseVolume))
            } else {
                (self, None)
            }
        } else if key == Key::Char('h') || key == Key::Left {
            if self.focus == Focus::Buttons {
                (self.prev_button(), None)
            } else {
                (self, None)
            }
        } else if key == Key::Char('l') || key == Key::Right {
            if self.focus == Focus::Buttons {
                (self.next_button(), None)
            } else {
                (self, None)
            }
        } else if key == Key::Char(' ') {
            if self.focus == Focus::Buttons && self.selected is Some {
                self.pressed(self.selected->Some_0)
            } else {
                (self, None)
            }
        } else {
            (self, None)
        }
    }

    /// The state after a report of the terminal, and what is to be done. A
    /// paste goes to the end of the download field while that field is open.
    pub open spec fn after_event(self, event: InputEventView) -> (AppView, Option<CommandView>) {
        match event {
            InputEventView::Key(key) => self.after_key(key),
            InputEventView::Paste(text) => if self.focus == Focus::Popup {
                (AppView { text: self.text + text, ..self }, None)
            } else {
                (self, None)
            },
            InputEventView::Other => (self, None),
        }
    }

    /// Whether the player can take the key: moving in an empty list and
    /// going round an empty row of buttons have no meaning.
    pub open spec fn takes_key(self, key: Key) -> bool {
        if key == Key::Char('q') || key == Key::Tab || key == Key::Char('/') || key == Key::F(1)
            || key == Key::Char('s') || (key == Key::Enter && self.focus == Focus::Popup) || key
            == Key::Char('r') {
            true
        } else if key == Key::Char('j') || key == Key::Down {
            self.focus == Focus::FolderList && self.selected is Some ==> self.files.len() > 0
                && self.selected->Some_0 < usize::MAX
        } else if key == Key::Char('k') || key == Key::Up {
            self.focus == Focus::FolderList && self.selected == Some(0usize) ==> self.files.len() > 0
        } else if key == Key::Char('h') || key == Key::Left {
            self.focus == Focus::Buttons && self.button_index == 0 ==> self.buttons.len() > 0
        } else if key == Key::Char('l') || key == Key::Right {
            self.focus == Focus::Buttons ==> self.buttons.len() > 0 && self.button_index < usize::MAX
        } else if key == Key::Char(' ') {
            self.focus == Focus::Buttons && self.selected is Some ==> {
                &&& self.button_index == NEXT_BUTTON ==> self.files.len() > 0 && self.selected->Some_0
                    < usize::MAX
                &&& self.button_index == PREVIOUS_BUTTON && self.selected->Some_0 == 0
                    ==> self.files.len() > 0
            }
        } else {
            true
        }
    }

    /// Whether the player can take the report.
    pub open spec fn takes(self, event: InputEventView) -> bool {
        match event {
            InputEventView::Key(key) => self.takes_key(key),
            _ => true,
        }
    }

    /// The state after a message of a background task, and what is to be
    /// done.
    pub open spec fn after_message(self, message: SignalMessage) -> (AppView, Option<CommandView>) {
        match message {
            SignalMessage::Downloaded => (self, Some(CommandView::ReloadFolder)),
            SignalMessage::UpdateIndex(row) => (AppView { selected: Some(row), ..self }, None),
        }
    }

    /// The state after the folder was listed: the playlist is the list of
    /// files.
    pub open spec fn after_listing(self, listing: Option<Seq<Option<String>>>) -> AppView {
        AppView {
            files: files_after(self.files, listing),
            service: AudioServiceView { playlist: files_after(self.files, listing), ..self.service },
            ..self
        }
    }

    /// The state once the volume has been on display for `elapsed_millis`.
    pub open spec fn settled(self, elapsed_millis: u64) -> AppView {
        if self.volume != Volume::Normal && elapsed_millis > VOLUME_DISPLAY_MILLIS {
            AppView { volume: Volume::Normal, ..self }
        } else {
            self
        }
    }

    /// The state after a tick with `queued` sources in the output queue and
    /// the draw that shuffle mode uses; what the output queue is to do; and
    /// the message for the interface.
    pub open spec fn after_tick(self, queued: usize, draw: usize) -> (
        AppView,
        SinkCommandView,
        Option<SignalMessage>,
    ) {
        if self.loop_mode == LoopMode::Single {
            (
                AppView { service: single_step(self.service, queued).0, ..self },
                single_step(self.service, queued).1,
                None,
            )
        } else {
            (
                AppView { service: playlist_step(self.service, queued, draw).0, ..self },
                playlist_step(self.service, queued, draw).1,
                match playlist_step(self.service, queued, draw).2 {
                    Some(row) => Some(SignalMessage::UpdateIndex(row)),
                    None => None,
                },
            )
        }
    }
}

/// Moving up or down keeps the selection inside a list that it was inside
/// of, and the track after a track of the list is a track of the list.
pub proof fn lemma_rows_stay_in_list(row: usize, len: usize)
    requires
        row < len,
    ensures
        AppView::row_below(row, len) < len,
        AppView::row_above(row, len) < len,
        AppView::track_after(row, len) < len,
        AppView::row_above(AppView::row_below(row, len), len) == row,
        AppView::row_below(AppView::row_above(row, len), len) == row,
        AppView::track_after(row, len) == AppView::row_below(row, len),
{
    if row + 1 < len {
        vstd::arithmetic::div_mod::lemma_small_mod((row + 1) as nat, len as nat);
    } else {
        vstd::arithmetic::div_mod::lemma_mod_self_0(len as int);
    }
    if row == 0 {
        vstd::arithmetic::div_mod::lemma_mod_self_0(len as int);
    } else {
        vstd::arithmetic::div_mod::lemma_small_mod(row as nat, len as nat);
    }
}

/// The help key toggles the help, and the first function key stands for it.
pub proof fn lemma_help_toggles(state: AppView)
    ensures
        state.after_key(Key::Char('/')).0.after_key(Key::Char('/')).0 == state,
        state.after_key(Key::F(1)).0 == state.after_key(Key::Char('/')).0,
{
}

fn copy_names(names: &Vec<String>) -> (r: Vec<String>)
    ensures
        names_view(r@) == names_view(names@),
{
    let mut copy: Vec<String> = Vec::new();
    let mut i: usize = 0;
    while i < names.len()
        invariant
            i <= names.len(),
            names_view(copy@) == names_view(names@).subrange(0, i as int),
        decreases names.len() - i,
    {
        copy.push(names[i].clone());
        assert(names_view(copy@) == names_view(names@).subrange(0, i as int).push(names@[i as int]@));
        i += 1;
    }
    assert(names_view(names@).subrange(0, names@.len() as int) == names_view(names@));
    copy
}

impl App {
    /// The text field is in order.
    pub open spec fn wf(&self) -> bool {
        self.text.wf()
    }

    /// A player that lists the folder `output_dir`.
    pub fn new(output_dir: &str) -> (r: App)
        ensures
            r.wf(),
            r@ == initial_app(output_dir@),
    {
        let mut pattern = String::from_str(output_dir);
        pattern.append("/*");
        let app = App {
            selected: Some(0),
            audio_service: AudioService::new(),
            audio_folder: AudioFolder::new().path(pattern),
            buttons: Vec::new(),
            button_index: 0,
            focus: Focus::FolderList,
            should_quit: false,
            text: TextInput::new(),
            loop_mode: LoopMode::Single,
            volume: Volume::Normal,
            mute_sound: MuteSound::Off,
            show_help: false,
        };
        assert(app@.files == Seq::<Seq<char>>::empty());
        assert(app@.buttons == Seq::<Seq<char>>::empty());
        app
    }

    /// Takes the result of listing the folder and makes the files the
    /// playlist.
    pub fn load_folder(&mut self, listing: Option<Vec<Option<String>>>)
        ensures
            final(self).text == old(self).text,
            final(self)@ == old(self)@.after_listing(
                match listing {
                    Some(entries) => Some(entries@),
                    None => None,
                },
            ),
    {
        self.audio_folder.load_mp3_file(listing);
        self.audio_service.playlist = copy_names(&self.audio_folder.files);
    }

    /// Goes to the next loop mode.
    pub fn toggle_mode(&mut self)
        ensures
            final(self).text == old(self).text,
            final(self)@ == old(self)@.toggled_mode(),
    {
        self.loop_mode = self.loop_mode.next();
        self.audio_service.loop_mode = self.loop_mode;
    }

    /// Takes a message of a background task.
    pub fn poll_msg(&mut self, message: SignalMessage) -> (r: Option<Command>)
        ensures
            final(self).text == old(self).text,
            (final(self)@, command_view(r)) == old(self)@.after_message(message),
    {
        match message {
            SignalMessage::Downloaded => Some(Command::ReloadFolder),
            SignalMessage::UpdateIndex(row) => {
                self.selected = Some(row);
                None
            },
        }
    }

    /// Mutes a player that sounds and the other way round.
    pub fn toggle_mute(&mut self) -> (r: Command)
        ensures
            final(self).text == old(self).text,
            (final(self)@, r@) == old(self)@.toggled_mute(),
    {
        if self.mute_sound == MuteSound::Off {
            self.mute_sound = self.mute_sound.on();
            Command::Mute
        } else {
            self.mute_sound = self.mute_sound.off();
            Command::Unmute
        }
    }

    /// Shows that the volume goes up.
    pub fn toggle_increase_vol(&mut self) -> (r: Command)
        ensures
            final(self).text == old(self).text,
            final(self)@ == (AppView { volume: Volume::Up, ..old(self)@ }),
            r == Command::IncreaseVolume,
    {
        self.volume = self.volume.up();
        Command::IncreaseVolume
    }

    /// Shows that the volume goes down.
    pub fn toggle_decrease_vol(&mut self) -> (r: Command)
        ensures
            final(self).text == old(self).text,
            final(self)@ == (AppView { volume: Volume::Down, ..old(self)@ }),
            r == Command::DecreaseVolume,
    {
        self.volume = self.volume.down();
        Command::DecreaseVolume
    }

    /// Takes the change of volume off the display once it has been there
    /// for long enough.
    pub fn settle_volume(&mut self, elapsed_millis: u64)
        ensures
            final(self).text == old(self).text,
            final(self)@ == old(self)@.settled(elapsed_millis),
    {
        if self.volume != Volume::Normal && elapsed_millis > VOLUME_DISPLAY_MILLIS {
            self.volume = self.volume.normal();
        }
    }

    /// One tick of playback, with the draw that shuffle mode uses.
    pub fn audio_tick_with(&mut self, queued: usize, draw: usize) -> (r: (SinkCommand, Option<SignalMessage>))
        requires
            old(self)@.service.selects_a_track(),
            old(self)@.service.playlist.len() >= 2 ==> draw < old(self)@.service.playlist.len() - 1,
        ensures
            final(self).text == old(self).text,
            (final(self)@, r.0@, r.1) == old(self)@.after_tick(queued, draw),
    {
        match self.loop_mode {
            LoopMode::Single => (self.audio_service.single_mode(queued), None),
            _ => {
                let (command, moved) = self.audio_service.playlist_mode_with(queued, draw);
                match moved {
                    Some(row) => (command, Some(SignalMessage::UpdateIndex(row))),
                    None => (command, None),
                }
            },
        }
    }

    /// One tick of playback. Shuffle mode draws the next track at random.
    pub fn audio_tick(&mut self, queued: usize) -> (r: (SinkCommand, Option<SignalMessage>))
        requires
            old(self)@.service.selects_a_track(),
        ensures
            final(self).text == old(self).text,
            exists|draw: usize|
                (old(self)@.service.playlist.len() >= 2 ==> draw < old(self)@.service.playlist.len() - 1) && (
                final(self)@,
                r.0@,
                r.1,
            ) == #[trigger] old(self)@.after_tick(queued, draw),
    {
        match self.loop_mode {
            LoopMode::Single => {
                let ghost before = self@;
                let command = self.audio_service.single_mode(queued);
                assert((self@, command@, None::<SignalMessage>) == before.after_tick(queued, 0));
                (command, None)
            },
            _ => {
                let ghost before = self@;
                let (command, moved) = self.audio_service.playlist_mode(queued);
                let message = match moved {
                    Some(row) => Some(SignalMessage::UpdateIndex(row)),
                    None => None,
                };
                proof {
                    let draw = choose|draw: usize|
                        (before.service.playlist.len() >= 2 ==> draw < before.service.playlist.len() - 1) && (
                        self.audio_service@,
                        command@,
                        moved,
                    ) == #[trigger] playlist_step(before.service, queued, draw);
                    assert((self@, command@, message) == before.after_tick(queued, draw));
                }
                (command, message)
            },
        }
    }

    /// Moves the selection one row down, to the first row from the last.
    pub fn next_folder(&mut self)
        requires
            old(self).selected is Some ==> old(self)@.files.len() > 0 && old(self).selected->Some_0 < usize::MAX,
        ensures
            final(self).text == old(self).text,
            final(self)@ == old(self)@.next_folder(),
    {
        let row = match self.selected {
            Some(row) => (row + 1) % self.audio_folder.files.len(),
            None => 0,
        };
        self.selected = Some(row);
    }

    /// Moves the selection one row up, to the last row from the first.
    pub fn prev_folder(&mut self)
        requires
            old(self).selected == Some(0usize) ==> old(self)@.files.len() > 0,
        ensures
            final(self).text == old(self).text,
            final(self)@ == old(self)@.prev_folder(),
    {
        let row = match self.selected {
            Some(row) => {
                if row == 0 {
                    self.audio_folder.files.len() - 1
                } else {
                    row - 1
                }
            },
            None => 0,
        };
        self.selected = Some(row);
    }

    /// Marks the next button, the first after the last.
    pub fn next_button(&mut self)
        requires
            old(self).buttons@.len() > 0,
            old(self).button_index < usize::MAX,
        ensures
            final(self).text == old(self).text,
            final(self)@ == old(self)@.next_button(),
    {
        self.button_index = (self.button_index + 1) % self.buttons.len();
    }

    /// Marks the previous button, the last before the first.
    pub fn prev_button(&mut self)
        requires
            old(self).button_index == 0 ==> old(self).buttons@.len() > 0,
        ensures
            final(self).text == old(self).text,
            final(self)@ == old(self)@.prev_button(),
    {
        self.button_index = if self.button_index == 0 {
            self.buttons.len() - 1
        } else {
            self.button_index - 1
        };
    }

    /// Sets the labels of the buttons to what the state shows.
    pub fn render_button(&mut self)
        ensures
            final(self).text == old(self).text,
            final(self)@ == (AppView { buttons: button_labels(old(self)@), ..old(self)@ }),
    {
        let mut buttons: Vec<&'static str> = Vec::new();
        buttons.push(self.mute_sound.text());
        buttons.push(self.volume.text());
        buttons.push("⏮️");
        buttons.push("⏯️");
        buttons.push("⏭️");
        buttons.push(self.loop_mode.text());
        self.buttons = buttons;
        assert(self@.buttons == button_labels(old(self)@));
    }

    fn cue(&mut self, row: usize)
        ensures
            final(self).text == old(self).text,
            final(self)@ == old(self)@.cued(row),
    {
        self.audio_service.current_playlist_index = row;
        self.audio_service.audio_event = AudioEvent::Play;
        self.selected = Some(row);
    }

    fn press(&mut self, row: usize) -> (r: Option<Command>)
        requires
            old(self).button_index == NEXT_BUTTON ==> old(self)@.files.len() > 0 && row < usize::MAX,
            old(self).button_index == PREVIOUS_BUTTON && row == 0 ==> old(self)@.files.len() > 0,
        ensures
            final(self).text == old(self).text,
            (final(self)@, command_view(r)) == old(self)@.pressed(row),
    {
        if self.button_index == PLAY_BUTTON {
            self.audio_service.current_playlist_index = row;
            match self.audio_service.audio_event {
                AudioEvent::Pause => {
                    self.audio_service.audio_event = AudioEvent::Play;
                    Some(Command::Play)
                },
                AudioEvent::Play => {
                    self.audio_service.audio_event = AudioEvent::Pause;
                    Some(Command::Pause)
                },
            }
        } else if self.button_index == NEXT_BUTTON {
            let next = if row == self.audio_folder.files.len() - 1 {
                0
            } else {
                row + 1
            };
            self.cue(next);
            Some(Command::Play)
        } else if self.button_index == PREVIOUS_BUTTON {
            let previous = if row == 0 {
                self.audio_folder.files.len() - 1
            } else {
                row - 1
            };
            self.cue(previous);
            Some(Command::Play)
        } else if self.button_index == MUTE_BUTTON {
            Some(self.toggle_mute())
        } else if self.button_index == MODE_BUTTON {
            self.toggle_mode();
            None
        } else {
            None
        }
    }

    fn close_popup(&mut self)
        ensures
            final(self).wf(),
            final(self)@ == (AppView {
                focus: Focus::FolderList,
                text: Seq::empty(),
                cursor: 0,
                ..old(self)@
            }),
    {
        self.focus = Focus::FolderList;
        self.text.clear();
    }

    /// Whether the player can take the key.
    pub fn accepts_key(&self, key: Key) -> (r: bool)
        ensures
            r == self@.takes_key(key),
    {
        let files = self.audio_folder.files.len();
        let buttons = self.buttons.len();
        if key == Key::Char('j') || key == Key::Down {
            match self.selected {
                Some(row) => !(self.focus == Focus::FolderList) || (files > 0 && row < usize::MAX),
                None => true,
            }
        } else if key == Key::Char('k') || key == Key::Up {
            match self.selected {
                Some(row) => !(self.focus == Focus::FolderList && row == 0) || files > 0,
                None => true,
            }
        } else if key == Key::Char('h') || key == Key::Left {
            !(self.focus == Focus::Buttons && self.button_index == 0) || buttons > 0
        } else if key == Key::Char('l') || key == Key::Right {
            !(self.focus == Focus::Buttons) || (buttons > 0 && self.button_index < usize::MAX)
        } else if key == Key::Char(' ') {
            match self.selected {
                Some(row) => {
                    !(self.focus == Focus::Buttons) || ((!(self.button_index == NEXT_BUTTON) || (files
                        > 0 && row < usize::MAX)) && (!(self.button_index == PREVIOUS_BUTTON && row
                        == 0) || files > 0))
                },
                None => true,
            }
        } else {
            true
        }
    }

    /// Whether the player can take the report.
    pub fn accepts(&self, event: &InputEvent) -> (r: bool)
        ensures
            r == self@.takes(event@),
    {
        match event {
            InputEvent::Key(key) => self.accepts_key(*key),
            _ => true,
        }
    }

    /// Takes a key.
    pub fn handle_key(&mut self, key: Key) -> (r: Option<Command>)
        requires
            old(self).wf(),
            old(self)@.takes_key(key),
        ensures
            final(self).wf(),
            (final(self)@, command_view(r)) == old(self)@.after_key(key),
    {
        if key == Key::Char('q') {
            self.should_quit = true;
            None
        } else if key == Key::Tab {
            self.focus = if self.focus == Focus::Buttons {
                Focus::FolderList
            } else {
                Focus::Buttons
            };
            None
        } else if key == Key::Char('/') || key == Key::F(1) {
            self.show_help = !self.show_help;
            None
        } else if key == Key::Char('s') {
            if self.focus == Focus::Popup {
                self.close_popup();
            } else {
                self.focus = Focus::Popup;
            }
            None
        } else if key == Key::Enter && self.focus == Focus::Popup {
            let video_id = YoutubeClient::<AndroidClient>::extract_video_id(self.text.value());
            self.close_popup();
            match video_id {
                Some(id) => Some(Command::Download(id)),
                None => None,
            }
        } else if key == Key::Char('r') {
            Some(Command::ReloadFolder)
        } else if key == Key::Char('j') || key == Key::Down {
            if self.focus == Focus::FolderList {
                self.next_folder();
                None
            } else if self.focus == Focus::Buttons && self.button_index == VOLUME_BUTTON {
                Some(self.toggle_decrease_vol())
            } else {
                None
            }
        } else if key == Key::Char('k') || key == Key::Up {
            if self.focus == Focus::FolderList {
                self.prev_folder();
                None
            } else if self.focus == Focus::Buttons && self.button_index == VOLUME_BUTTON {
                Some(self.toggle_increase_vol())
            } else {
                None
            }
        } else if key == Key::Char('h') || key == Key::Left {
            if self.focus == Focus::Buttons {
                self.prev_button();
            }
            None
        } else if key == Key::Char('l') || key == Key::Right {
            if self.focus == Focus::Buttons {
                self.next_button();
            }
            None
        } else if key == Key::Char(' ') {
            if self.focus == Focus::Buttons {
                match self.selected {
                    Some(row) => self.press(row),
                    None => None,
                }
            } else {
                None
            }
        } else {
            None
        }
    }

    /// Takes a report of the terminal.
    pub fn handle_event(&mut self, event: InputEvent) -> (r: Option<Command>)
        requires
            old(self).wf(),
            old(self)@.takes(event@),
        ensures
            final(self).wf(),
            (final(self)@, command_view(r)) == old(self)@.after_event(event@),
    {
        match event {
            InputEvent::Key(key) => self.handle_key(key),
            InputEvent::Paste(pasted) => {
                if self.focus == Focus::Popup {
                    self.text.push_str(pasted.as_str());
                }
                None
            },
            InputEvent::Other => None,
        }
    }
}

} // verus!
