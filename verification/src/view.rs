//! What the screen shows: the rows of each panel, their colours, and the pop-up menus.
use vstd::prelude::*;

use crate::picker::{FilePickerState, PickerModel};
use crate::text::{contains_text, decimal, has_substring, occurs_at, push_decimal};

verus! {

/// How a piece of text is coloured.
#[derive(Clone, Copy, PartialEq, Eq, Structural, Debug)]
pub enum Tone {
    /// Terminal default colours.
    Default,
    DarkGray,
    White,
    Cyan,
    /// Black on cyan, bold.
    CyanHighlighted,
    Yellow,
    YellowBold,
    MagentaBold,
    RedBold,
    Green,
    GreenBold,
    LightBlueBold,
}

/// One row of a list panel: a prefix and a text, both in one tone.
pub struct Row {
    pub prefix: String,
    pub text: String,
    pub tone: Tone,
}

/// A row of a list panel as plain values.
pub struct RowModel {
    pub prefix: Seq<char>,
    pub text: Seq<char>,
    pub tone: Tone,
}

impl View for Row {
    type V = RowModel;

    open spec fn view(&self) -> RowModel {
        RowModel { prefix: self.prefix@, text: self.text@, tone: self.tone }
    }
}

/// A row with no prefix.
pub open spec fn plain_row(text: Seq<char>, tone: Tone) -> RowModel {
    RowModel { prefix: Seq::empty(), text, tone }
}

/// The rows of `rows` as plain values.
pub open spec fn rows_model(rows: Seq<Row>) -> Seq<RowModel> {
    rows.map_values(|r: Row| r@)
}

/// The device panel: a waiting note when no device is known; otherwise one row per device,
/// marked and highlighted where it is the selected one.
pub open spec fn device_panel(devices: Seq<Seq<char>>, selected: int) -> Seq<RowModel> {
    if devices.len() == 0 {
        seq![plain_row(" (Cihaz bekleniyor...)"@, Tone::DarkGray)]
    } else {
        Seq::new(
            devices.len(),
            |i: int|
                if i == selected {
                    RowModel { prefix: " ▶ "@, text: devices[i], tone: Tone::CyanHighlighted }
                } else {
                    RowModel { prefix: "   "@, text: devices[i], tone: Tone::Cyan }
                },
        )
    }
}

/// The tone of a chat line: clipboard lines stand out in bold yellow, system lines in bold
/// magenta, the rest are white.
pub open spec fn message_tone(msg: Seq<char>) -> Tone {
    if has_substring(msg, "[PANO]"@) || has_substring(msg, "PANO"@) {
        Tone::YellowBold
    } else if has_substring(msg, "[SISTEM]"@) {
        Tone::MagentaBold
    } else {
        Tone::White
    }
}

/// The chat panel: the messages from position `scroll` on.
pub open spec fn message_panel(messages: Seq<Seq<char>>, scroll: int) -> Seq<RowModel> {
    let shown = if scroll < messages.len() { messages.skip(scroll) } else { Seq::empty() };
    shown.map_values(|m: Seq<char>| plain_row(m, message_tone(m)))
}

/// The tone of a log line: failures in bold red, warnings in yellow, successes in bold
/// green, everything else in cyan.
pub open spec fn log_tone(line: Seq<char>) -> Tone {
    if has_substring(line, "❌"@) || has_substring(line, "ERROR"@) {
        Tone::RedBold
    } else if has_substring(line, "⚠️"@) {
        Tone::Yellow
    } else if has_substring(line, "✅"@) {
        Tone::GreenBold
    } else {
        Tone::Cyan
    }
}

/// How many of the latest log lines the log panel shows.
pub open spec fn log_window() -> nat {
    6
}

/// The log panel: a calm note when the log is empty, otherwise its last six lines in order.
pub open spec fn log_panel(errors: Seq<Seq<char>>) -> Seq<RowModel> {
    if errors.len() == 0 {
        seq![plain_row(" ✔️ Sistem stabil, aktif hata yok."@, Tone::DarkGray)]
    } else {
        let start = if errors.len() > log_window() { errors.len() - log_window() } else { 0 };
        errors.skip(start).map_values(|e: Seq<char>| plain_row(e, log_tone(e)))
    }
}

/// The title of the chat panel, which shows the scroll offset.
pub open spec fn message_title(scroll: nat) -> Seq<char> {
    " 💬 Canlı Akış & Pano [PgUp/PgDn: "@ + decimal(scroll) + "] "@
}

/// The input line as shown.
pub open spec fn input_text(input: Seq<char>) -> Seq<char> {
    " > "@ + input
}

/// A pop-up menu: its size in percent of the screen, its title, its frame's tone and rows.
pub struct Popup {
    pub percent_x: u16,
    pub percent_y: u16,
    pub title: String,
    pub frame: Tone,
    pub rows: Vec<Row>,
}

/// The folder menu's rows.
pub open spec fn folder_menu_rows() -> Seq<RowModel> {
    seq![
        plain_row(" [1] 📂 Downloads  (/home/senatorherscher/Downloads)"@, Tone::Cyan),
        plain_row(" [2] 📂 Pictures   (/home/senatorherscher/Pictures)"@, Tone::Cyan),
        plain_row(" [3] 📂 Documents  (/home/senatorherscher/Documents)"@, Tone::Cyan),
        plain_row(" [4] 📂 Desktop    (/home/senatorherscher/Desktop)"@, Tone::Cyan),
        plain_row(Seq::empty(), Tone::Default),
        plain_row(" 💡 İpucu: Klavyeden [1-4] basıp klasör seçin. İptal: [Esc]"@, Tone::DarkGray),
    ]
}

/// The numbered entry for the file at position `i` of a menu, with its marker.
pub open spec fn menu_entry(i: int, marker: Seq<char>, name: Seq<char>) -> Seq<char> {
    " ["@ + decimal((i + 1) as nat) + "] "@ + marker + " "@ + name
}

/// The rows of the menu of files to send.
pub open spec fn file_menu_rows(files: Seq<(Seq<char>, Seq<char>)>) -> Seq<RowModel> {
    let entries = if files.len() == 0 {
        seq![plain_row(" (Bu klasörde gönderilecek dosya bulunamadı)"@, Tone::DarkGray)]
    } else {
        Seq::new(files.len(), |i: int| plain_row(menu_entry(i, "📄"@, files[i].0), Tone::YellowBold))
    };
    entries.push(plain_row(Seq::empty(), Tone::Default)).push(
        plain_row(
            " 🚀 Klavyeden [1-9] basarak dosyayı hemen telefona gönderin! [Esc: Geri]"@,
            Tone::Green,
        ),
    )
}

/// The rows of the menu of phone files to fetch.
pub open spec fn receive_menu_rows(files: Seq<Seq<char>>) -> Seq<RowModel> {
    let entries = if files.len() == 0 {
        seq![plain_row(" (Telefonda dosya bulunamadı)"@, Tone::DarkGray)]
    } else {
        Seq::new(files.len(), |i: int| plain_row(menu_entry(i, "📱"@, files[i]), Tone::LightBlueBold))
    };
    entries.push(plain_row(Seq::empty(), Tone::Default)).push(
        plain_row(
            " 📥 Klavyeden [1-8] basarak dosyayı PC Downloads'a çekin! [Esc: İptal]"@,
            Tone::Green,
        ),
    )
}

/// The pop-up for a menu state: its size, title, frame tone and rows.
pub open spec fn popup_model(picker: PickerModel) -> Option<(u16, u16, Seq<char>, Tone, Seq<RowModel>)> {
    match picker {
        PickerModel::Closed => None,
        PickerModel::FolderMenu => Some(
            (60, 45, " 📁 Telefona Gönder: Klasör Seç [1-4] "@, Tone::MagentaBold, folder_menu_rows()),
        ),
        PickerModel::FileMenu { folder_name, files } => Some(
            (
                65,
                55,
                " 📁 "@ + folder_name + " -> Telefona Gönder [1-9] "@,
                Tone::YellowBold,
                file_menu_rows(files),
            ),
        ),
        PickerModel::ReceiveMenu { files } => Some(
            (
                65,
                55,
                " 📥 Telefondan Dosya Çek (Receive) [1-8] "@,
                Tone::LightBlueBold,
                receive_menu_rows(files),
            ),
        ),
    }
}

fn row(text: String, tone: Tone) -> (r: Row)
    ensures
        r@ == plain_row(text@, tone),
{
    Row { prefix: String::new(), text, tone }
}

fn push_row(rows: &mut Vec<Row>, r: Row)
    ensures
        rows_model(final(rows)@) == rows_model(old(rows)@).push(r@),
{
    rows.push(r);
    assert(rows_model(rows@) =~= rows_model(old(rows)@).push(r@));
}

/// The rows of the device panel.
pub fn device_rows(devices: &Vec<String>, selected: usize) -> (rows: Vec<Row>)
    ensures
        rows_model(rows@) == device_panel(devices.deep_view(), selected as int),
{
    let mut rows: Vec<Row> = Vec::new();
    if devices.len() == 0 {
        push_row(&mut rows, row(String::from_str(" (Cihaz bekleniyor...)"), Tone::DarkGray));
        assert(rows_model(rows@) =~= device_panel(devices.deep_view(), selected as int));
        return rows;
    }
    let mut i: usize = 0;
    while i < devices.len()
        invariant
            i <= devices@.len(),
            devices@.len() > 0,
            rows_model(rows@) =~= device_panel(devices.deep_view(), selected as int).take(i as int),
        decreases devices@.len() - i,
    {
        let r = if i == selected {
            Row {
                prefix: String::from_str(" ▶ "),
                text: devices[i].clone(),
                tone: Tone::CyanHighlighted,
            }
        } else {
            Row { prefix: String::from_str("   "), text: devices[i].clone(), tone: Tone::Cyan }
        };
        push_row(&mut rows, r);
        i = i + 1;
    }
    rows
}

/// The tone of a chat line.
pub fn message_tone_of(msg: &str) -> (t: Tone)
    ensures
        t == message_tone(msg@),
{
    if contains_text(msg, "[PANO]") || contains_text(msg, "PANO") {
        Tone::YellowBold
    } else if contains_text(msg, "[SISTEM]") {
        Tone::MagentaBold
    } else {
        Tone::White
    }
}

/// The rows of the chat panel.
pub fn message_rows(messages: &Vec<String>, scroll: usize) -> (rows: Vec<Row>)
    ensures
        rows_model(rows@) == message_panel(messages.deep_view(), scroll as int),
{
    let mut rows: Vec<Row> = Vec::new();
    if scroll >= messages.len() {
        assert(rows_model(rows@) =~= message_panel(messages.deep_view(), scroll as int));
        return rows;
    }
    let ghost shown = messages.deep_view().skip(scroll as int);
    let mut i: usize = scroll;
    while i < messages.len()
        invariant
            scroll <= i <= messages@.len(),
            shown == messages.deep_view().skip(scroll as int),
            rows_model(rows@) =~= shown.take(i - scroll).map_values(
                |m: Seq<char>| plain_row(m, message_tone(m)),
            ),
        decreases messages@.len() - i,
    {
        let t = message_tone_of(messages[i].as_str());
        push_row(&mut rows, row(messages[i].clone(), t));
        i = i + 1;
    }
    assert(shown.take(i - scroll) =~= shown);
    assert(rows_model(rows@) =~= message_panel(messages.deep_view(), scroll as int));
    rows
}

/// The tone of a log line.
pub fn log_tone_of(line: &str) -> (t: Tone)
    ensures
        t == log_tone(line@),
{
    if contains_text(line, "❌") || contains_text(line, "ERROR") {
        Tone::RedBold
    } else if contains_text(line, "⚠️") {
        Tone::Yellow
    } else if contains_text(line, "✅") {
        Tone::GreenBold
    } else {
        Tone::Cyan
    }
}

/// The rows of the log panel.
pub fn log_rows(errors: &Vec<String>) -> (rows: Vec<Row>)
    ensures
        rows_model(rows@) == log_panel(errors.deep_view()),
{
    let mut rows: Vec<Row> = Vec::new();
    if errors.len() == 0 {
        push_row(
            &mut rows,
            row(String::from_str(" ✔️ Sistem stabil, aktif hata yok."), Tone::DarkGray),
        );
        assert(rows_model(rows@) =~= log_panel(errors.deep_view()));
        return rows;
    }
    let start: usize = if errors.len() > 6 { errors.len() - 6 } else { 0 };
    let ghost shown = errors.deep_view().skip(start as int);
    let mut i: usize = start;
    while i < errors.len()
        invariant
            start <= i <= errors@.len(),
            shown == errors.deep_view().skip(start as int),
            rows_model(rows@) =~= shown.take(i - start).map_values(
                |e: Seq<char>| plain_row(e, log_tone(e)),
            ),
        decreases errors@.len() - i,
    {
        let t = log_tone_of(errors[i].as_str());
        push_row(&mut rows, row(errors[i].clone(), t));
        i = i + 1;
    }
    assert(shown.take(i - start) =~= shown);
    assert(rows_model(rows@) =~= log_panel(errors.deep_view()));
    rows
}

/// The title of the chat panel.
pub fn message_panel_title(scroll: usize) -> (t: String)
    ensures
        t@ == message_title(scroll as nat),
{
    let mut t = String::from_str(" 💬 Canlı Akış & Pano [PgUp/PgDn: ");
    push_decimal(&mut t, scroll as u64);
    t.append("] ");
    t
}

/// The input line as shown.
pub fn input_line(input: &str) -> (t: String)
    ensures
        t@ == input_text(input@),
{
    let mut t = String::from_str(" > ");
    t.append(input);
    t
}

fn numbered_entry(i: usize, marker: &str, name: &str) -> (t: String)
    requires
        i < usize::MAX,
    ensures
        t@ == menu_entry(i as int, marker@, name@),
{
    let mut t = String::from_str(" [");
    push_decimal(&mut t, (i + 1) as u64);
    t.append("] ");
    t.append(marker);
    t.append(" ");
    t.append(name);
    t
}

/// The pop-up menu for `picker`, if one is open.
pub fn popup(picker: &FilePickerState) -> (p: Option<Popup>)
    ensures
        p is None <==> popup_model(picker@) is None,
        p matches Some(q) ==> popup_model(picker@) == Some(
            (q.percent_x, q.percent_y, q.title@, q.frame, rows_model(q.rows@)),
        ),
{
    match picker {
        FilePickerState::Closed => None,
        FilePickerState::FolderMenu => {
            let mut rows: Vec<Row> = Vec::new();
            push_row(
                &mut rows,
                row(String::from_str(" [1] 📂 Downloads  (/home/senatorherscher/Downloads)"), Tone::Cyan),
            );
            push_row(
                &mut rows,
                row(String::from_str(" [2] 📂 Pictures   (/home/senatorherscher/Pictures)"), Tone::Cyan),
            );
            push_row(
                &mut rows,
                row(String::from_str(" [3] 📂 Documents  (/home/senatorherscher/Documents)"), Tone::Cyan),
            );
            push_row(
                &mut rows,
                row(String::from_str(" [4] 📂 Desktop    (/home/senatorherscher/Desktop)"), Tone::Cyan),
            );
            push_row(&mut rows, row(String::new(), Tone::Default));
            push_row(
                &mut rows,
                row(
                    String::from_str(" 💡 İpucu: Klavyeden [1-4] basıp klasör seçin. İptal: [Esc]"),
                    Tone::DarkGray,
                ),
            );
            assert(rows_model(rows@) =~= folder_menu_rows());
            Some(Popup {
                percent_x: 60,
                percent_y: 45,
                title: String::from_str(" 📁 Telefona Gönder: Klasör Seç [1-4] "),
                frame: Tone::MagentaBold,
                rows,
            })
        },
        FilePickerState::FileMenu { folder_name, files } => {
            let mut rows: Vec<Row> = Vec::new();
            let ghost fs = files.deep_view();
            if files.len() == 0 {
                push_row(
                    &mut rows,
                    row(String::from_str(" (Bu klasörde gönderilecek dosya bulunamadı)"), Tone::DarkGray),
                );
            } else {
                let mut i: usize = 0;
                while i < files.len()
                    invariant
                        i <= files@.len(),
                        fs == files.deep_view(),
                        rows_model(rows@) =~= Seq::new(
                            files@.len(),
                            |j: int| plain_row(menu_entry(j, "📄"@, fs[j].0), Tone::YellowBold),
                        ).take(i as int),
                    decreases files@.len() - i,
                {
                    let t = numbered_entry(i, "📄", files[i].0.as_str());
                    push_row(&mut rows, row(t, Tone::YellowBold));
                    i = i + 1;
                }
            }
            push_row(&mut rows, row(String::new(), Tone::Default));
            push_row(
                &mut rows,
                row(
                    String::from_str(
                        " 🚀 Klavyeden [1-9] basarak dosyayı hemen telefona gönderin! [Esc: Geri]",
                    ),
                    Tone::Green,
                ),
            );
            assert(rows_model(rows@) =~= file_menu_rows(fs));
            let mut title = String::from_str(" 📁 ");
            title.append(folder_name.as_str());
            title.append(" -> Telefona Gönder [1-9] ");
            Some(Popup { percent_x: 65, percent_y: 55, title, frame: Tone::YellowBold, rows })
        },
        FilePickerState::ReceiveMenu { files } => {
            let mut rows: Vec<Row> = Vec::new();
            let ghost fs = files.deep_view();
            if files.len() == 0 {
                push_row(
                    &mut rows,
                    row(String::from_str(" (Telefonda dosya bulunamadı)"), Tone::DarkGray),
                );
            } else {
                let mut i: usize = 0;
                while i < files.len()
                    invariant
                        i <= files@.len(),
                        fs == files.deep_view(),
                        rows_model(rows@) =~= Seq::new(
                            files@.len(),
                            |j: int| plain_row(menu_entry(j, "📱"@, fs[j]), Tone::LightBlueBold),
                        ).take(i as int),
                    decreases files@.len() - i,
                {
                    let t = numbered_entry(i, "📱", files[i].as_str());
                    push_row(&mut rows, row(t, Tone::LightBlueBold));
                    i = i + 1;
                }
            }
            push_row(&mut rows, row(String::new(), Tone::Default));
            push_row(
                &mut rows,
                row(
                    String::from_str(
                        " 📥 Klavyeden [1-8] basarak dosyayı PC Downloads'a çekin! [Esc: İptal]",
                    ),
                    Tone::Green,
                ),
            );
            assert(rows_model(rows@) =~= receive_menu_rows(fs));
            Some(Popup {
                percent_x: 65,
                percent_y: 55,
                title: String::from_str(" 📥 Telefondan Dosya Çek (Receive) [1-8] "),
                frame: Tone::LightBlueBold,
                rows,
            })
        },
    }
}


/// A line is shown as a clipboard line exactly when it mentions `PANO` (a `[PANO]` tag
/// mentions it too).
pub proof fn law_clipboard_tone(msg: Seq<char>)
    ensures
        (message_tone(msg) == Tone::YellowBold) <==> has_substring(msg, "PANO"@),
{
    if has_substring(msg, "[PANO]"@) {
        reveal_strlit("[PANO]");
        reveal_strlit("PANO");
        assert(occurs_at("[PANO]"@, "PANO"@, 1)) by {
            assert("[PANO]"@.subrange(1, 5) =~= "PANO"@);
        }
        crate::text::lemma_substring_of_substring(msg, "[PANO]"@, "PANO"@, 1);
    }
}

/// The log panel shows the latest lines, at most six, the newest last.
pub proof fn law_log_panel_shows_latest(errors: Seq<Seq<char>>)
    requires
        errors.len() > 0,
    ensures
        log_panel(errors).len() == if errors.len() > 6 { 6 } else { errors.len() },
        log_panel(errors).last().text == errors.last(),
        log_panel(errors).last().tone == log_tone(errors.last()),
{
}

/// When the selection points at a device, exactly that device's row is highlighted and
/// every device keeps its place.
pub proof fn law_one_device_highlighted(devices: Seq<Seq<char>>, selected: int)
    requires
        0 <= selected < devices.len(),
    ensures
        device_panel(devices, selected).len() == devices.len(),
        forall|i: int|
            0 <= i < devices.len() ==> #[trigger] device_panel(devices, selected)[i].text == devices[i]
                && (device_panel(devices, selected)[i].tone == Tone::CyanHighlighted <==> i
                == selected),
{
}


/// The folder-menu row `" [k] 📂 <name><spaces>(<path>)"`.
pub open spec fn folder_row_shows(text: Seq<char>, k: nat, name: Seq<char>, path: Seq<char>) -> bool {
    exists|pad: Seq<char>|
        pad.len() > 0 && (forall|j: int| 0 <= j < pad.len() ==> pad[j] == ' ') && text == " ["@
            + decimal(k) + "] 📂 "@ + name + pad + "("@ + path + ")"@
}

proof fn lemma_folder_row(text: Seq<char>, k: nat, name: Seq<char>, path: Seq<char>, pad: Seq<char>)
    requires
        pad.len() > 0,
        forall|j: int| 0 <= j < pad.len() ==> pad[j] == ' ',
        text == " ["@ + decimal(k) + "] 📂 "@ + name + pad + "("@ + path + ")"@,
    ensures
        folder_row_shows(text, k, name, path),
{
}

/// In the folder menu exactly the digit keys 1 to 4 choose a folder, and key `k` lists the
/// folder that the menu's row `k` names and shows the path of, a folder in the user's home.
pub proof fn law_folder_keys_follow_menu_rows(c: char)
    ensures
        crate::hub::folder_choice(c) is Some <==> ('1' <= c && c <= '4'),
        crate::hub::folder_choice(c) matches Some(choice) ==> {
            let k = crate::hub::digit_slot(c)->0;
            &&& choice.1 == "/home/senatorherscher/"@ + choice.0
            &&& folder_row_shows(folder_menu_rows()[k].text, (k + 1) as nat, choice.0, choice.1)
        },
{
    reveal_strlit(" [");
    reveal_strlit("] 📂 ");
    reveal_strlit("(");
    reveal_strlit(")");
    reveal_strlit("/home/senatorherscher/");
    assert(decimal(1) == seq!['1']);
    assert(decimal(2) == seq!['2']);
    assert(decimal(3) == seq!['3']);
    assert(decimal(4) == seq!['4']);
    if c == '1' {
        reveal_strlit("Downloads");
        reveal_strlit("/home/senatorherscher/Downloads");
        reveal_strlit(" [1] 📂 Downloads  (/home/senatorherscher/Downloads)");
        let pad = seq![' ', ' '];
        assert("/home/senatorherscher/Downloads"@ =~= "/home/senatorherscher/"@ + "Downloads"@);
        assert(folder_menu_rows()[0].text =~= " ["@ + decimal(1) + "] 📂 "@ + "Downloads"@ + pad
            + "("@ + "/home/senatorherscher/Downloads"@ + ")"@);
        lemma_folder_row(folder_menu_rows()[0].text, 1, "Downloads"@, "/home/senatorherscher/Downloads"@, pad);
    } else if c == '2' {
        reveal_strlit("Pictures");
        reveal_strlit("/home/senatorherscher/Pictures");
        reveal_strlit(" [2] 📂 Pictures   (/home/senatorherscher/Pictures)");
        let pad = seq![' ', ' ', ' '];
        assert("/home/senatorherscher/Pictures"@ =~= "/home/senatorherscher/"@ + "Pictures"@);
        assert(folder_menu_rows()[1].text =~= " ["@ + decimal(2) + "] 📂 "@ + "Pictures"@ + pad
            + "("@ + "/home/senatorherscher/Pictures"@ + ")"@);
        lemma_folder_row(folder_menu_rows()[1].text, 2, "Pictures"@, "/home/senatorherscher/Pictures"@, pad);
    } else if c == '3' {
        reveal_strlit("Documents");
        reveal_strlit("/home/senatorherscher/Documents");
        reveal_strlit(" [3] 📂 Documents  (/home/senatorherscher/Documents)");
        let pad = seq![' ', ' '];
        assert("/home/senatorherscher/Documents"@ =~= "/home/senatorherscher/"@ + "Documents"@);
        assert(folder_menu_rows()[2].text =~= " ["@ + decimal(3) + "] 📂 "@ + "Documents"@ + pad
            + "("@ + "/home/senatorherscher/Documents"@ + ")"@);
        lemma_folder_row(folder_menu_rows()[2].text, 3, "Documents"@, "/home/senatorherscher/Documents"@, pad);
    } else if c == '4' {
        reveal_strlit("Desktop");
        reveal_strlit("/home/senatorherscher/Desktop");
        reveal_strlit(" [4] 📂 Desktop    (/home/senatorherscher/Desktop)");
        let pad = seq![' ', ' ', ' ', ' '];
        assert("/home/senatorherscher/Desktop"@ =~= "/home/senatorherscher/"@ + "Desktop"@);
        assert(folder_menu_rows()[3].text =~= " ["@ + decimal(4) + "] 📂 "@ + "Desktop"@ + pad
            + "("@ + "/home/senatorherscher/Desktop"@ + ")"@);
        lemma_folder_row(folder_menu_rows()[3].text, 4, "Desktop"@, "/home/senatorherscher/Desktop"@, pad);
    }
}

} // verus!
