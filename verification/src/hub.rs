//! The hub's interactive state: what a key press or an incoming line does to it, and what
//! outside work it asks for.
use vstd::prelude::*;

use crate::picker::{FilePickerState, PickerModel};
use crate::text::{
    chars_of, contains_text, has_prefix, has_substring, starts_with_text, strip_leading,
    strip_leading_text, trim, trimmed,
};

verus! {

/// `String::pop` removes the last character and returns it, or returns `None` on an empty string.
pub assume_specification[ String::pop ](s: &mut String) -> (c: Option<char>)
    ensures
        old(s)@.len() == 0 ==> c is None && final(s)@ == old(s)@,
        old(s)@.len() > 0 ==> c == Some(old(s)@.last()) && final(s)@ == old(s)@.drop_last(),
;

/// A key press, as far as the hub tells keys apart.
#[derive(Clone, Copy)]
pub enum Key {
    Esc,
    Enter,
    Backspace,
    Up,
    Down,
    PageUp,
    PageDown,
    F(u8),
    Char(char),
    Other,
}

/// Outside work that a key press asks for.
pub enum UiAction {
    Nothing,
    Quit,
    /// List the files of a folder, then hand them to `open_file_menu`.
    ListFolder { folder_name: String, path: String },
    /// List the files on the phone, then hand them to `open_receive_menu`.
    ListPhoneFiles,
    SendFile(String),
    PullFile(String),
    Mirror(String),
    /// Send a chat line to the server and post it as a phone notification.
    SendMessage(String),
}

/// A `UiAction` as plain values.
pub enum UiActionModel {
    Nothing,
    Quit,
    ListFolder { folder_name: Seq<char>, path: Seq<char> },
    ListPhoneFiles,
    SendFile(Seq<char>),
    PullFile(Seq<char>),
    Mirror(Seq<char>),
    SendMessage(Seq<char>),
}

impl View for UiAction {
    type V = UiActionModel;

    open spec fn view(&self) -> UiActionModel {
        match self {
            UiAction::Nothing => UiActionModel::Nothing,
            UiAction::Quit => UiActionModel::Quit,
            UiAction::ListFolder { folder_name, path } => UiActionModel::ListFolder {
                folder_name: folder_name@,
                path: path@,
            },
            UiAction::ListPhoneFiles => UiActionModel::ListPhoneFiles,
            UiAction::SendFile(p) => UiActionModel::SendFile(p@),
            UiAction::PullFile(p) => UiActionModel::PullFile(p@),
            UiAction::Mirror(d) => UiActionModel::Mirror(d@),
            UiAction::SendMessage(m) => UiActionModel::SendMessage(m@),
        }
    }
}

/// The hub's state as plain values.
#[verifier::ext_equal]
pub struct HubModel {
    pub messages: Seq<Seq<char>>,
    pub devices: Seq<Seq<char>>,
    pub errors: Seq<Seq<char>>,
    pub input: Seq<char>,
    pub selected: int,
    pub scroll: int,
    pub picker: PickerModel,
}

/// The hub's state: the chat and event log, the known devices, the log of transfers and
/// errors, the line being typed, the selected device, the chat scroll offset and the
/// pop-up menu.
pub struct HubState {
    messages: Vec<String>,
    devices: Vec<String>,
    errors: Vec<String>,
    input: String,
    selected_device_idx: usize,
    msg_scroll: usize,
    picker_state: FilePickerState,
}

impl View for HubState {
    type V = HubModel;

    closed spec fn view(&self) -> HubModel {
        HubModel {
            messages: self.messages.deep_view(),
            devices: self.devices.deep_view(),
            errors: self.errors.deep_view(),
            input: self.input@,
            selected: self.selected_device_idx as int,
            scroll: self.msg_scroll as int,
            picker: self.picker_state@,
        }
    }
}

/// The selection points at a device, and the chat scroll offset is zero or points at a
/// message.
pub open spec fn hub_wf(s: HubModel) -> bool {
    &&& 0 <= s.selected < s.devices.len()
    &&& 0 <= s.scroll
    &&& (s.scroll == 0 || s.scroll < s.messages.len())
}

/// The folder offered under a digit key of the folder menu: (name, path).
pub open spec fn folder_choice(c: char) -> Option<(Seq<char>, Seq<char>)> {
    if c == '1' {
        Some(("Downloads"@, "/home/senatorherscher/Downloads"@))
    } else if c == '2' {
        Some(("Pictures"@, "/home/senatorherscher/Pictures"@))
    } else if c == '3' {
        Some(("Documents"@, "/home/senatorherscher/Documents"@))
    } else if c == '4' {
        Some(("Desktop"@, "/home/senatorherscher/Desktop"@))
    } else {
        None
    }
}

/// The list position that a digit key from `1` to `9` picks.
pub open spec fn digit_slot(c: char) -> Option<int> {
    if '1' <= c && c <= '9' {
        Some(c as int - '1' as int)
    } else {
        None
    }
}

/// The command that an entered, trimmed, non-empty line `t` stands for.
pub open spec fn line_command(s: HubModel, t: Seq<char>) -> UiActionModel {
    if has_prefix(t, "/mirror"@) {
        if 0 <= s.selected < s.devices.len() {
            UiActionModel::Mirror(s.devices[s.selected])
        } else {
            UiActionModel::Nothing
        }
    } else if has_prefix(t, "/pull "@) {
        UiActionModel::PullFile(trim(strip_leading(t, "/pull "@)))
    } else if has_prefix(t, "/send "@) || has_prefix(t, "/file "@) {
        UiActionModel::SendFile(trim(strip_leading(strip_leading(t, "/send "@), "/file "@)))
    } else {
        UiActionModel::SendMessage(t)
    }
}

/// What a key does while no pop-up menu is open.
pub open spec fn closed_key_step(s: HubModel, key: Key) -> (HubModel, UiActionModel) {
    match key {
        Key::Esc => (s, UiActionModel::Quit),
        Key::F(n) => if n == 3 {
            (HubModel { picker: PickerModel::FolderMenu, ..s }, UiActionModel::Nothing)
        } else if n == 4 {
            (s, UiActionModel::ListPhoneFiles)
        } else if n == 2 && 0 <= s.selected < s.devices.len() {
            (s, UiActionModel::Mirror(s.devices[s.selected]))
        } else {
            (s, UiActionModel::Nothing)
        },
        Key::Up => (
            HubModel { selected: if s.selected > 0 { s.selected - 1 } else { s.selected }, ..s },
            UiActionModel::Nothing,
        ),
        Key::Down => (
            HubModel {
                selected: if s.selected + 1 < s.devices.len() { s.selected + 1 } else { s.selected },
                ..s
            },
            UiActionModel::Nothing,
        ),
        Key::PageUp => (
            HubModel { scroll: if s.scroll > 0 { s.scroll - 1 } else { s.scroll }, ..s },
            UiActionModel::Nothing,
        ),
        Key::PageDown => (
            HubModel {
                scroll: if s.scroll + 1 < s.messages.len() { s.scroll + 1 } else { s.scroll },
                ..s
            },
            UiActionModel::Nothing,
        ),
        Key::Enter => {
            let t = trim(s.input);
            if t.len() == 0 {
                (s, UiActionModel::Nothing)
            } else {
                (HubModel { input: Seq::empty(), ..s }, line_command(s, t))
            }
        },
        Key::Backspace => (
            HubModel {
                input: if s.input.len() > 0 { s.input.drop_last() } else { s.input },
                ..s
            },
            UiActionModel::Nothing,
        ),
        Key::Char(c) => (HubModel { input: s.input.push(c), ..s }, UiActionModel::Nothing),
        Key::Other => (s, UiActionModel::Nothing),
    }
}

/// What a key press does to the hub and which outside work it asks for.
pub open spec fn key_step(s: HubModel, key: Key) -> (HubModel, UiActionModel) {
    match s.picker {
        PickerModel::FolderMenu => match key {
            Key::Esc => (HubModel { picker: PickerModel::Closed, ..s }, UiActionModel::Nothing),
            Key::Char(c) => match folder_choice(c) {
                Some(choice) => (
                    s,
                    UiActionModel::ListFolder { folder_name: choice.0, path: choice.1 },
                ),
                None => (s, UiActionModel::Nothing),
            },
            _ => (s, UiActionModel::Nothing),
        },
        PickerModel::FileMenu { folder_name, files } => match key {
            Key::Esc => (HubModel { picker: PickerModel::FolderMenu, ..s }, UiActionModel::Nothing),
            Key::Char(c) => match digit_slot(c) {
                Some(i) => if i < files.len() {
                    (
                        HubModel { picker: PickerModel::Closed, ..s },
                        UiActionModel::SendFile(files[i].1),
                    )
                } else {
                    (s, UiActionModel::Nothing)
                },
                None => (s, UiActionModel::Nothing),
            },
            _ => (s, UiActionModel::Nothing),
        },
        PickerModel::ReceiveMenu { files } => match key {
            Key::Esc => (HubModel { picker: PickerModel::Closed, ..s }, UiActionModel::Nothing),
            Key::Char(c) => match digit_slot(c) {
                Some(i) => if i < files.len() {
                    (
                        HubModel { picker: PickerModel::Closed, ..s },
                        UiActionModel::PullFile(files[i]),
                    )
                } else {
                    (s, UiActionModel::Nothing)
                },
                None => (s, UiActionModel::Nothing),
            },
            _ => (s, UiActionModel::Nothing),
        },
        PickerModel::Closed => closed_key_step(s, key),
    }
}

/// An incoming line that announces a device on the local network.
pub open spec fn announces_device(msg: Seq<char>) -> bool {
    &&& (has_substring(msg, "Client added"@) || has_substring(msg, "joined"@) || has_substring(
        msg,
        "katildi"@,
    ))
    &&& has_substring(msg, "192.168."@)
}

/// The device-list entry for an announcing line.
pub open spec fn device_entry(msg: Seq<char>) -> Seq<char> {
    "New Device ("@ + msg + ")"@
}

/// What an incoming line does: it is appended to the chat, and, where it announces a device
/// not yet listed, that device is appended to the device list.
pub open spec fn message_step(s: HubModel, msg: Seq<char>) -> HubModel {
    HubModel {
        messages: s.messages.push(msg),
        devices: if announces_device(msg) && !s.devices.contains(device_entry(msg)) {
            s.devices.push(device_entry(msg))
        } else {
            s.devices
        },
        ..s
    }
}

/// The device-list entry for this computer.
pub open spec fn pc_device_entry(username: Seq<char>) -> Seq<char> {
    "💻 "@ + username + " (127.0.0.1)"@
}

/// The first line of the transfer and error log.
pub open spec fn ready_notice() -> Seq<char> {
    "ℹ️  System ready. Transferred files are stored in /sdcard/Download/NexusTUI/"@
}

/// The hub as it starts: this computer and the phone listed, the phone selected.
pub open spec fn initial_hub(username: Seq<char>, phone_device: Seq<char>) -> HubModel {
    HubModel {
        messages: Seq::empty(),
        devices: seq![pc_device_entry(username), phone_device],
        errors: seq![ready_notice()],
        input: Seq::empty(),
        selected: 1,
        scroll: 0,
        picker: PickerModel::Closed,
    }
}

/// The line that registers the user's nickname with the server.
pub open spec fn nick_line(username: Seq<char>) -> Seq<char> {
    "/nick "@ + username
}

/// The line that registers `username` with the server.
pub fn nick_command(username: &str) -> (line: String)
    ensures
        line@ == nick_line(username@),
{
    let mut line = String::from_str("/nick ");
    line.append(username);
    line
}

fn push_text(v: &mut Vec<String>, s: String)
    ensures
        final(v).deep_view() == old(v).deep_view().push(s@),
{
    v.push(s);
    assert(v.deep_view() =~= old(v).deep_view().push(s@));
}

fn list_contains(v: &Vec<String>, s: &String) -> (b: bool)
    ensures
        b == v.deep_view().contains(s@),
{
    let mut i: usize = 0;
    while i < v.len()
        invariant
            i <= v@.len(),
            forall|j: int| 0 <= j < i ==> v.deep_view()[j] != s@,
        decreases v@.len() - i,
    {
        if v[i] == *s {
            assert(v.deep_view()[i as int] == s@);
            return true;
        }
        i = i + 1;
    }
    assert(!v.deep_view().contains(s@)) by {
        if v.deep_view().contains(s@) {
            let k = choose|k: int| 0 <= k < v.deep_view().len() && v.deep_view()[k] == s@;
            assert(v.deep_view()[k] != s@);
        }
    }
    false
}

fn folder_for_key(c: char) -> (r: Option<(String, String)>)
    ensures
        r matches Some(p) ==> folder_choice(c) == Some((p.0@, p.1@)),
        r is None ==> folder_choice(c) is None,
{
    if c == '1' {
        Some((String::from_str("Downloads"), String::from_str("/home/senatorherscher/Downloads")))
    } else if c == '2' {
        Some((String::from_str("Pictures"), String::from_str("/home/senatorherscher/Pictures")))
    } else if c == '3' {
        Some((String::from_str("Documents"), String::from_str("/home/senatorherscher/Documents")))
    } else if c == '4' {
        Some((String::from_str("Desktop"), String::from_str("/home/senatorherscher/Desktop")))
    } else {
        None
    }
}

fn slot_for_key(c: char) -> (r: Option<usize>)
    ensures
        r matches Some(i) ==> digit_slot(c) == Some(i as int) && i < 9,
        r is None ==> digit_slot(c) is None,
{
    if '1' <= c && c <= '9' {
        Some(((c as u32) - ('1' as u32)) as usize)
    } else {
        None
    }
}

impl HubState {
    /// The hub as it starts, with `username` naming this computer and `phone_device` the phone.
    pub fn new(username: &str, phone_device: String) -> (s: HubState)
        ensures
            s@ == initial_hub(username@, phone_device@),
            hub_wf(s@),
    {
        let mut pc = String::from_str("💻 ");
        pc.append(username);
        pc.append(" (127.0.0.1)");
        let mut devices: Vec<String> = Vec::new();
        push_text(&mut devices, pc);
        push_text(&mut devices, phone_device);
        let mut errors: Vec<String> = Vec::new();
        push_text(
            &mut errors,
            String::from_str(
                "ℹ️  System ready. Transferred files are stored in /sdcard/Download/NexusTUI/",
            ),
        );
        let s = HubState {
            messages: Vec::new(),
            devices,
            errors,
            input: String::new(),
            selected_device_idx: 1,
            msg_scroll: 0,
            picker_state: FilePickerState::Closed,
        };
        assert(s@.messages =~= Seq::<Seq<char>>::empty());
        assert(s@.devices =~= initial_hub(username@, phone_device@).devices);
        assert(s@.errors =~= initial_hub(username@, phone_device@).errors);
        s
    }

    /// Appends an incoming line to the chat and lists the device that it announces, if any.
    pub fn receive_line(&mut self, msg: String)
        ensures
            final(self)@ == message_step(old(self)@, msg@),
            hub_wf(old(self)@) ==> hub_wf(final(self)@),
    {
        let announces = (contains_text(msg.as_str(), "Client added") || contains_text(
            msg.as_str(),
            "joined",
        ) || contains_text(msg.as_str(), "katildi")) && contains_text(msg.as_str(), "192.168.");
        if announces {
            let mut entry = String::from_str("New Device (");
            entry.append(msg.as_str());
            entry.append(")");
            assert(entry@ =~= device_entry(msg@));
            if !list_contains(&self.devices, &entry) {
                push_text(&mut self.devices, entry);
            }
        }
        push_text(&mut self.messages, msg);
    }

    /// Appends a line to the transfer and error log.
    pub fn push_log(&mut self, line: String)
        ensures
            final(self)@ == (HubModel { errors: old(self)@.errors.push(line@), ..old(self)@ }),
            hub_wf(old(self)@) ==> hub_wf(final(self)@),
    {
        push_text(&mut self.errors, line);
    }

    /// Opens the menu of files to send from `folder_name`, listing `files`.
    pub fn open_file_menu(&mut self, folder_name: String, files: Vec<(String, String)>)
        ensures
            final(self)@ == (HubModel {
                picker: PickerModel::FileMenu { folder_name: folder_name@, files: files.deep_view() },
                ..old(self)@
            }),
            hub_wf(old(self)@) ==> hub_wf(final(self)@),
    {
        self.picker_state = FilePickerState::FileMenu { folder_name, files };
    }

    /// Opens the menu of phone files to fetch, listing `files`.
    pub fn open_receive_menu(&mut self, files: Vec<String>)
        ensures
            final(self)@ == (HubModel {
                picker: PickerModel::ReceiveMenu { files: files.deep_view() },
                ..old(self)@
            }),
            hub_wf(old(self)@) ==> hub_wf(final(self)@),
    {
        self.picker_state = FilePickerState::ReceiveMenu { files };
    }

    fn enter_line(&mut self) -> (a: UiAction)
        requires
            old(self).picker_state is Closed,
        ensures
            (final(self)@, a@) == closed_key_step(old(self)@, Key::Enter),
    {
        let t = trimmed(self.input.as_str());
        let v = chars_of(t.as_str());
        if v.len() == 0 {
            return UiAction::Nothing;
        }
        let a = if starts_with_text(t.as_str(), "/mirror") {
            if self.selected_device_idx < self.devices.len() {
                UiAction::Mirror(self.devices[self.selected_device_idx].clone())
            } else {
                UiAction::Nothing
            }
        } else if starts_with_text(t.as_str(), "/pull ") {
            let rest = strip_leading_text(t.as_str(), "/pull ");
            UiAction::PullFile(trimmed(rest.as_str()))
        } else if starts_with_text(t.as_str(), "/send ") || starts_with_text(t.as_str(), "/file ") {
            let rest = strip_leading_text(t.as_str(), "/send ");
            let rest = strip_leading_text(rest.as_str(), "/file ");
            UiAction::SendFile(trimmed(rest.as_str()))
        } else {
            UiAction::SendMessage(t)
        };
        self.input = String::new();
        a
    }

    fn closed_key(&mut self, key: Key) -> (a: UiAction)
        requires
            old(self).picker_state is Closed,
        ensures
            (final(self)@, a@) == closed_key_step(old(self)@, key),
    {
        match key {
            Key::Esc => UiAction::Quit,
            Key::F(n) => {
                if n == 3 {
                    self.picker_state = FilePickerState::FolderMenu;
                    UiAction::Nothing
                } else if n == 4 {
                    UiAction::ListPhoneFiles
                } else if n == 2 && self.selected_device_idx < self.devices.len() {
                    UiAction::Mirror(self.devices[self.selected_device_idx].clone())
                } else {
                    UiAction::Nothing
                }
            },
            Key::Up => {
                if self.selected_device_idx > 0 {
                    self.selected_device_idx = self.selected_device_idx - 1;
                }
                UiAction::Nothing
            },
            Key::Down => {
                if self.devices.len() > 0 && self.selected_device_idx < self.devices.len() - 1 {
                    self.selected_device_idx = self.selected_device_idx + 1;
                }
                UiAction::Nothing
            },
            Key::PageUp => {
                if self.msg_scroll > 0 {
                    self.msg_scroll = self.msg_scroll - 1;
                }
                UiAction::Nothing
            },
            Key::PageDown => {
                if self.messages.len() > 0 && self.msg_scroll < self.messages.len() - 1 {
                    self.msg_scroll = self.msg_scroll + 1;
                }
                UiAction::Nothing
            },
            Key::Enter => self.enter_line(),
            Key::Backspace => {
                let _ = self.input.pop();
                UiAction::Nothing
            },
            Key::Char(c) => {
                self.input.push(c);
                UiAction::Nothing
            },
            Key::Other => UiAction::Nothing,
        }
    }

    /// Handles a key press: updates the hub and says which outside work to do.
    pub fn handle_key(&mut self, key: Key) -> (a: UiAction)
        ensures
            (final(self)@, a@) == key_step(old(self)@, key),
            hub_wf(old(self)@) ==> hub_wf(final(self)@),
    {
        match &self.picker_state {
            FilePickerState::FolderMenu => {
                match key {
                    Key::Esc => {
                        self.picker_state = FilePickerState::Closed;
                        UiAction::Nothing
                    },
                    Key::Char(c) => match folder_for_key(c) {
                        Some(choice) => UiAction::ListFolder {
                            folder_name: choice.0,
                            path: choice.1,
                        },
                        None => UiAction::Nothing,
                    },
                    _ => UiAction::Nothing,
                }
            },
            FilePickerState::FileMenu { files, .. } => {
                match key {
                    Key::Esc => {
                        self.picker_state = FilePickerState::FolderMenu;
                        UiAction::Nothing
                    },
                    Key::Char(c) => match slot_for_key(c) {
                        Some(i) => {
                            if i < files.len() {
                                let path = files[i].1.clone();
                                self.picker_state = FilePickerState::Closed;
                                UiAction::SendFile(path)
                            } else {
                                UiAction::Nothing
                            }
                        },
                        None => UiAction::Nothing,
                    },
                    _ => UiAction::Nothing,
                }
            },
            FilePickerState::ReceiveMenu { files } => {
                match key {
                    Key::Esc => {
                        self.picker_state = FilePickerState::Closed;
                        UiAction::Nothing
                    },
                    Key::Char(c) => match slot_for_key(c) {
                        Some(i) => {
                            if i < files.len() {
                                let name = files[i].clone();
                                self.picker_state = FilePickerState::Closed;
                                UiAction::PullFile(name)
                            } else {
                                UiAction::Nothing
                            }
                        },
                        None => UiAction::Nothing,
                    },
                    _ => UiAction::Nothing,
                }
            },
            FilePickerState::Closed => self.closed_key(key),
        }
    }
}


impl HubState {
    /// The chat and event lines, oldest first.
    pub fn messages(&self) -> (r: &Vec<String>)
        ensures
            r.deep_view() == self@.messages,
    {
        &self.messages
    }

    /// The known devices, in the order they became known.
    pub fn devices(&self) -> (r: &Vec<String>)
        ensures
            r.deep_view() == self@.devices,
    {
        &self.devices
    }

    /// The transfer and error log, oldest first.
    pub fn log(&self) -> (r: &Vec<String>)
        ensures
            r.deep_view() == self@.errors,
    {
        &self.errors
    }

    /// The line being typed.
    pub fn input(&self) -> (r: &String)
        ensures
            r@ == self@.input,
    {
        &self.input
    }

    /// The position of the selected device.
    pub fn selected_device(&self) -> (r: usize)
        ensures
            r as int == self@.selected,
    {
        self.selected_device_idx
    }

    /// How many chat lines are scrolled past.
    pub fn scroll(&self) -> (r: usize)
        ensures
            r as int == self@.scroll,
    {
        self.msg_scroll
    }

    /// The pop-up menu.
    pub fn picker(&self) -> (r: &FilePickerState)
        ensures
            r@ == self@.picker,
    {
        &self.picker_state
    }
}

/// The hub starts well formed.
pub proof fn law_initial_hub_wf(username: Seq<char>, phone_device: Seq<char>)
    ensures
        hub_wf(initial_hub(username, phone_device)),
{
}

/// Every key press keeps the selection on a device and the scroll offset on a message.
pub proof fn law_key_step_keeps_wf(s: HubModel, key: Key)
    requires
        hub_wf(s),
    ensures
        hub_wf(key_step(s, key).0),
{
}

/// Every incoming line keeps the selection on a device and the scroll offset on a message.
pub proof fn law_message_step_keeps_wf(s: HubModel, msg: Seq<char>)
    requires
        hub_wf(s),
    ensures
        hub_wf(message_step(s, msg)),
{
}

/// Key presses never change the chat, the device list or the log.
pub proof fn law_keys_keep_history(s: HubModel, key: Key)
    ensures
        key_step(s, key).0.messages == s.messages,
        key_step(s, key).0.devices == s.devices,
        key_step(s, key).0.errors == s.errors,
{
}

/// An incoming line is appended to the chat; the device list only grows, by at most the
/// announced device, and every other part of the hub stays as it was.
pub proof fn law_lines_only_append(s: HubModel, msg: Seq<char>)
    ensures
        message_step(s, msg).messages == s.messages.push(msg),
        message_step(s, msg).devices.len() <= s.devices.len() + 1,
        message_step(s, msg).devices.subrange(0, s.devices.len() as int) == s.devices,
        message_step(s, msg).devices.len() == s.devices.len() + 1 ==> message_step(s, msg).devices.last()
            == device_entry(msg) && announces_device(msg),
        message_step(s, msg).errors == s.errors,
        message_step(s, msg).input == s.input,
        message_step(s, msg).selected == s.selected,
        message_step(s, msg).scroll == s.scroll,
        message_step(s, msg).picker == s.picker,
{
    assert(message_step(s, msg).devices.subrange(0, s.devices.len() as int) =~= s.devices);
}

/// A device is never listed twice: incoming lines keep a list without repeats free of repeats.
pub proof fn law_devices_stay_distinct(s: HubModel, msg: Seq<char>)
    requires
        forall|i: int, j: int| 0 <= i < j < s.devices.len() ==> s.devices[i] != s.devices[j],
    ensures
        forall|i: int, j: int|
            0 <= i < j < message_step(s, msg).devices.len() ==> message_step(s, msg).devices[i]
                != message_step(s, msg).devices[j],
{
    let d = message_step(s, msg).devices;
    if d.len() > s.devices.len() {
        assert forall|i: int, j: int| 0 <= i < j < d.len() implies d[i] != d[j] by {
            if j == s.devices.len() {
                assert(d[i] == s.devices[i]);
                assert(!s.devices.contains(device_entry(msg)));
            }
        }
    }
}

/// With no menu open, Backspace takes back a typed character.
pub proof fn law_backspace_undoes_typing(s: HubModel, c: char)
    requires
        s.picker is Closed,
    ensures
        key_step(key_step(s, Key::Char(c)).0, Key::Backspace).0 == s,
        key_step(key_step(s, Key::Char(c)).0, Key::Backspace).1 == UiActionModel::Nothing,
{
    assert(s.input.push(c).drop_last() =~= s.input);
}

/// With no menu open, Enter on a line with text empties the line and issues its command; on
/// a blank line it does nothing at all.
pub proof fn law_enter_takes_the_line(s: HubModel)
    requires
        s.picker is Closed,
    ensures
        trim(s.input).len() > 0 ==> key_step(s, Key::Enter).0 == (HubModel {
            input: Seq::empty(),
            ..s
        }) && key_step(s, Key::Enter).1 == line_command(s, trim(s.input)),
        trim(s.input).len() == 0 ==> key_step(s, Key::Enter) == (s, UiActionModel::Nothing),
{
}

/// Escape backs out one level: from the file list to the folder menu, from the folder menu
/// or the phone file list to no menu, and with no menu open it quits. Nothing else changes.
pub proof fn law_escape_backs_out(s: HubModel)
    ensures
        s.picker is FileMenu ==> key_step(s, Key::Esc) == (
            HubModel { picker: PickerModel::FolderMenu, ..s },
            UiActionModel::Nothing,
        ),
        (s.picker is FolderMenu || s.picker is ReceiveMenu) ==> key_step(s, Key::Esc) == (
            HubModel { picker: PickerModel::Closed, ..s },
            UiActionModel::Nothing,
        ),
        s.picker is Closed ==> key_step(s, Key::Esc) == (s, UiActionModel::Quit),
{
}

/// Only Escape with no menu open quits.
pub proof fn law_only_escape_quits(s: HubModel, key: Key)
    ensures
        key_step(s, key).1 == UiActionModel::Quit <==> (s.picker is Closed && key == Key::Esc),
{
}

/// Picking a listed file by its number closes the menu and sends or fetches that file;
/// a number past the end of the list does nothing.
pub proof fn law_pick_from_menu(s: HubModel, c: char)
    requires
        digit_slot(c) is Some,
    ensures
        s.picker matches PickerModel::FileMenu { folder_name, files } ==> if digit_slot(c)->0
            < files.len() {
            key_step(s, Key::Char(c)) == (
                HubModel { picker: PickerModel::Closed, ..s },
                UiActionModel::SendFile(files[digit_slot(c)->0].1),
            )
        } else {
            key_step(s, Key::Char(c)) == (s, UiActionModel::Nothing)
        },
        s.picker matches PickerModel::ReceiveMenu { files } ==> if digit_slot(c)->0 < files.len() {
            key_step(s, Key::Char(c)) == (
                HubModel { picker: PickerModel::Closed, ..s },
                UiActionModel::PullFile(files[digit_slot(c)->0]),
            )
        } else {
            key_step(s, Key::Char(c)) == (s, UiActionModel::Nothing)
        },
{
}

/// With no menu open, moving down and back up returns to the same device when there is one
/// below; moving up and back down returns to it when there is one above.
pub proof fn law_up_down_return(s: HubModel)
    requires
        s.picker is Closed,
        hub_wf(s),
    ensures
        s.selected + 1 < s.devices.len() ==> key_step(key_step(s, Key::Down).0, Key::Up).0 == s,
        s.selected > 0 ==> key_step(key_step(s, Key::Up).0, Key::Down).0 == s,
{
}


/// A line that mentions a LAN address (`192.168.`) together with `Client added`, `joined` or
/// `katildi` gets the device `New Device (<line>)` listed, added at the end unless it is listed
/// already; any other line leaves the device list as it was.
pub proof fn law_announced_devices_are_listed(s: HubModel, msg: Seq<char>)
    ensures
        ((has_substring(msg, "Client added"@) || has_substring(msg, "joined"@) || has_substring(
            msg,
            "katildi"@,
        )) && has_substring(msg, "192.168."@)) ==> {
            let d = message_step(s, msg).devices;
            let entry = "New Device ("@ + msg + ")"@;
            &&& d.contains(entry)
            &&& s.devices.contains(entry) ==> d == s.devices
            &&& !s.devices.contains(entry) ==> d == s.devices.push(entry)
        },
        !((has_substring(msg, "Client added"@) || has_substring(msg, "joined"@) || has_substring(
            msg,
            "katildi"@,
        )) && has_substring(msg, "192.168."@)) ==> message_step(s, msg).devices == s.devices,
{
    let d = message_step(s, msg).devices;
    let entry = "New Device ("@ + msg + ")"@;
    if announces_device(msg) && !s.devices.contains(entry) {
        assert(d[d.len() - 1] == entry);
    }
}

} // verus!
