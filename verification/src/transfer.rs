//! Moving files between this computer and the phone, and notifying the phone: the decisions,
//! as steps that say which outside work comes next.
use vstd::prelude::*;

use crate::command::{
    adb_on_phone, phone_args, phone_inbox, push_arg, CommandModel, ShellCommand,
};
use crate::device::{lowercase, to_lower};
use crate::path::{extension, extension_of, file_name, file_name_of};

verus! {

/// One piece of outside work.
pub enum Effect {
    /// Append this line to the transfer log.
    Log(String),
    /// Report whether this local path exists.
    CheckExists(String),
    /// Run this command to its end with its output discarded, and report whether it succeeded.
    Run(ShellCommand),
    /// Start this command in the background with its output discarded.
    Spawn(ShellCommand),
}

/// An `Effect` as plain values.
pub enum EffectModel {
    Log(Seq<char>),
    CheckExists(Seq<char>),
    Run(CommandModel),
    Spawn(CommandModel),
}

impl View for Effect {
    type V = EffectModel;

    open spec fn view(&self) -> EffectModel {
        match self {
            Effect::Log(s) => EffectModel::Log(s@),
            Effect::CheckExists(p) => EffectModel::CheckExists(p@),
            Effect::Run(c) => EffectModel::Run(c@),
            Effect::Spawn(c) => EffectModel::Spawn(c@),
        }
    }
}

/// The effects of `v` as plain values.
pub open spec fn effects_model(v: Seq<Effect>) -> Seq<EffectModel> {
    v.map_values(|e: Effect| e@)
}

fn push_effect(v: &mut Vec<Effect>, e: Effect)
    ensures
        effects_model(final(v)@) == effects_model(old(v)@).push(e@),
{
    v.push(e);
    assert(effects_model(v@) =~= effects_model(old(v)@).push(e@));
}

/// The extensions of files that the phone's gallery should pick up.
pub open spec fn is_media_extension(ext: Seq<char>) -> bool {
    ext == "jpg"@ || ext == "jpeg"@ || ext == "png"@ || ext == "webp"@ || ext == "gif"@ || ext
        == "mp4"@
}

/// Whether a lowercased extension is that of an image or video.
pub fn is_media_file_extension(ext: &str) -> (b: bool)
    ensures
        b == is_media_extension(ext@),
{
    let e = String::from_str(ext);
    e == String::from_str("jpg") || e == String::from_str("jpeg") || e == String::from_str("png")
        || e == String::from_str("webp") || e == String::from_str("gif") || e == String::from_str(
        "mp4",
    )
}

/// The name under which a sent file is announced: its file name, or `file` if it has none.
pub open spec fn sent_name(path: Seq<char>) -> Seq<char> {
    match file_name_of(path) {
        Some(n) => n,
        None => "file"@,
    }
}

/// The extension of `path` as the transfer judges it: empty where there is none.
pub open spec fn sent_extension(path: Seq<char>) -> Seq<char> {
    match extension_of(path) {
        Some(e) => e,
        None => Seq::empty(),
    }
}

/// Where a file sending stands.
#[derive(Clone, Copy, PartialEq, Eq, Structural, Debug)]
pub enum SendStage {
    /// Waiting to hear whether the local file exists.
    CheckingSource,
    /// Waiting for the phone's folder to be made.
    MakingFolder,
    /// Waiting for the copy to the phone to end.
    Copying,
    Finished,
}

/// The sending of one local file to the phone's inbox folder.
pub struct FileSend {
    pub path: String,
    pub name: String,
    pub media: bool,
    pub stage: SendStage,
}

/// The command that makes the phone's inbox folder.
pub open spec fn make_inbox_query() -> CommandModel {
    adb_on_phone(seq!["shell"@, "mkdir"@, "-p"@, phone_inbox()])
}

/// The command that copies `path` into the phone's inbox folder.
pub open spec fn copy_to_phone_query(path: Seq<char>) -> CommandModel {
    adb_on_phone(seq!["push"@, path, phone_inbox()])
}

/// The command that makes the phone's gallery pick up the received file `name`.
pub open spec fn media_scan_query(name: Seq<char>) -> CommandModel {
    adb_on_phone(
        seq![
            "shell"@,
            "am"@,
            "broadcast"@,
            "-a"@,
            "android.intent.action.MEDIA_SCANNER_SCAN_FILE"@,
            "-d"@,
            "file://"@ + phone_inbox() + name,
        ],
    )
}

/// The command that posts a phone notification with this title, tag and text.
pub open spec fn notification_query(title: Seq<char>, tag: Seq<char>, text: Seq<char>) -> CommandModel {
    adb_on_phone(seq!["shell"@, "cmd"@, "notification"@, "post"@, "-t"@, title, tag, text])
}

/// The notification that announces a received file `name`.
pub open spec fn received_notification(name: Seq<char>) -> CommandModel {
    notification_query(
        "📥 NexusTUI File Received"@,
        "file_tag"@,
        name + " saved to your Download/NexusTUI folder!"@,
    )
}

/// The notification that carries a chat line.
pub open spec fn message_notification(text: Seq<char>) -> CommandModel {
    notification_query("⚡ NexusTUI Message"@, "msg_tag"@, text)
}

/// What the sending of `path` (announced as `name`, a media file or not) does with the report
/// `ok` on its last effect, from `stage`.
pub open spec fn send_step(path: Seq<char>, name: Seq<char>, media: bool, stage: SendStage, ok: bool) -> (
    SendStage,
    Seq<EffectModel>,
) {
    match stage {
        SendStage::CheckingSource => if ok {
            (
                SendStage::MakingFolder,
                seq![
                    EffectModel::Log("📤 [TRANSFER]: "@ + name + " -> Download/NexusTUI/..."@),
                    EffectModel::Run(make_inbox_query()),
                ],
            )
        } else {
            (SendStage::Finished, seq![EffectModel::Log("❌ [FILE NOT FOUND]: "@ + path)])
        },
        SendStage::MakingFolder => (
            SendStage::Copying,
            seq![EffectModel::Run(copy_to_phone_query(path))],
        ),
        SendStage::Copying => if ok {
            let done = seq![EffectModel::Log("✅ [COMPLETED]: "@ + name + " -> Download/NexusTUI/"@)];
            let scanned = if media {
                done.push(EffectModel::Spawn(media_scan_query(name)))
            } else {
                done
            };
            (SendStage::Finished, scanned.push(EffectModel::Spawn(received_notification(name))))
        } else {
            (
                SendStage::Finished,
                seq![EffectModel::Log("❌ [ERROR]: Failed to transfer "@ + name + "."@)],
            )
        },
        SendStage::Finished => (SendStage::Finished, Seq::empty()),
    }
}

/// A lowercased extension: `lowercase` of the extension of `path`.
pub open spec fn sent_extension_lower(path: Seq<char>) -> Seq<char> {
    lowercase(sent_extension(path))
}

impl FileSend {
    /// Starts sending `path`: first its existence is checked.
    pub fn new(path: String) -> (r: (FileSend, Vec<Effect>))
        ensures
            r.0.path@ == path@,
            r.0.name@ == sent_name(path@),
            r.0.media == is_media_extension(sent_extension_lower(path@)),
            r.0.stage == SendStage::CheckingSource,
            effects_model(r.1@) == seq![EffectModel::CheckExists(path@)],
    {
        let name = match file_name(path.as_str()) {
            Some(n) => n,
            None => String::from_str("file"),
        };
        let ext = match extension(path.as_str()) {
            Some(e) => e,
            None => String::new(),
        };
        let lower = to_lower(ext.as_str());
        let media = is_media_file_extension(lower.as_str());
        let mut effects: Vec<Effect> = Vec::new();
        push_effect(&mut effects, Effect::CheckExists(path.clone()));
        (FileSend { path, name, media, stage: SendStage::CheckingSource }, effects)
    }

    /// Takes the report `ok` on the last effect and gives the effects to perform next.
    pub fn step(&mut self, ok: bool) -> (effects: Vec<Effect>)
        ensures
            final(self).path == old(self).path,
            final(self).name == old(self).name,
            final(self).media == old(self).media,
            (final(self).stage, effects_model(effects@)) == send_step(
                old(self).path@,
                old(self).name@,
                old(self).media,
                old(self).stage,
                ok,
            ),
    {
        let mut effects: Vec<Effect> = Vec::new();
        match self.stage {
            SendStage::CheckingSource => {
                if ok {
                    let mut line = String::from_str("📤 [TRANSFER]: ");
                    line.append(self.name.as_str());
                    line.append(" -> Download/NexusTUI/...");
                    push_effect(&mut effects, Effect::Log(line));
                    let mut args = phone_args();
                    push_arg(&mut args, "shell");
                    push_arg(&mut args, "mkdir");
                    push_arg(&mut args, "-p");
                    push_arg(&mut args, "/sdcard/Download/NexusTUI/");
                    assert(args.deep_view() =~= make_inbox_query().args);
                    push_effect(
                        &mut effects,
                        Effect::Run(ShellCommand { program: String::from_str("adb"), args }),
                    );
                    self.stage = SendStage::MakingFolder;
                } else {
                    let mut line = String::from_str("❌ [FILE NOT FOUND]: ");
                    line.append(self.path.as_str());
                    push_effect(&mut effects, Effect::Log(line));
                    self.stage = SendStage::Finished;
                }
            },
            SendStage::MakingFolder => {
                let mut args = phone_args();
                push_arg(&mut args, "push");
                push_arg(&mut args, self.path.as_str());
                push_arg(&mut args, "/sdcard/Download/NexusTUI/");
                assert(args.deep_view() =~= copy_to_phone_query(self.path@).args);
                push_effect(
                    &mut effects,
                    Effect::Run(ShellCommand { program: String::from_str("adb"), args }),
                );
                self.stage = SendStage::Copying;
            },
            SendStage::Copying => {
                if ok {
                    let mut line = String::from_str("✅ [COMPLETED]: ");
                    line.append(self.name.as_str());
                    line.append(" -> Download/NexusTUI/");
                    push_effect(&mut effects, Effect::Log(line));
                    if self.media {
                        let mut uri = String::from_str("file://");
                        uri.append("/sdcard/Download/NexusTUI/");
                        uri.append(self.name.as_str());
                        let mut args = phone_args();
                        push_arg(&mut args, "shell");
                        push_arg(&mut args, "am");
                        push_arg(&mut args, "broadcast");
                        push_arg(&mut args, "-a");
                        push_arg(&mut args, "android.intent.action.MEDIA_SCANNER_SCAN_FILE");
                        push_arg(&mut args, "-d");
                        push_arg(&mut args, uri.as_str());
                        assert(args.deep_view() =~= media_scan_query(self.name@).args);
                        push_effect(
                            &mut effects,
                            Effect::Spawn(ShellCommand { program: String::from_str("adb"), args }),
                        );
                    }
                    let mut text = self.name.clone();
                    text.append(" saved to your Download/NexusTUI folder!");
                    let c = notification_command(
                        "📥 NexusTUI File Received",
                        "file_tag",
                        text.as_str(),
                    );
                    push_effect(&mut effects, Effect::Spawn(c));
                } else {
                    let mut line = String::from_str("❌ [ERROR]: Failed to transfer ");
                    line.append(self.name.as_str());
                    line.append(".");
                    push_effect(&mut effects, Effect::Log(line));
                }
                self.stage = SendStage::Finished;
            },
            SendStage::Finished => {},
        }
        effects
    }
}

/// The command that posts a phone notification.
pub fn notification_command(title: &str, tag: &str, text: &str) -> (c: ShellCommand)
    ensures
        c@ == notification_query(title@, tag@, text@),
{
    let mut args = phone_args();
    push_arg(&mut args, "shell");
    push_arg(&mut args, "cmd");
    push_arg(&mut args, "notification");
    push_arg(&mut args, "post");
    push_arg(&mut args, "-t");
    push_arg(&mut args, title);
    push_arg(&mut args, tag);
    push_arg(&mut args, text);
    assert(args.deep_view() =~= notification_query(title@, tag@, text@).args);
    ShellCommand { program: String::from_str("adb"), args }
}

/// The notification that carries the chat line `text` to the phone.
pub fn message_notification_command(text: &str) -> (c: ShellCommand)
    ensures
        c@ == message_notification(text@),
{
    notification_command("⚡ NexusTUI Message", "msg_tag", text)
}

/// Where fetched files go on this computer.
pub open spec fn pc_downloads() -> Seq<char> {
    "/home/senatorherscher/Downloads/"@
}

/// The command that copies the phone file at `remote` into this computer's downloads.
pub open spec fn copy_from_phone_query(remote: Seq<char>) -> CommandModel {
    adb_on_phone(seq!["pull"@, remote, pc_downloads()])
}

/// Where a file fetch stands.
#[derive(Clone, Copy, PartialEq, Eq, Structural, Debug)]
pub enum PullStage {
    /// Waiting for the copy from the phone's inbox folder.
    FromInbox,
    /// Waiting for the copy from the phone's download folder.
    FromDownloads,
    Finished,
}

/// The fetching of one phone file into this computer's downloads.
pub struct FilePull {
    pub name: String,
    pub stage: PullStage,
}

/// What fetching `name` does with the report `ok` on its last copy: it tries the inbox
/// folder first, then the download folder, and logs the outcome.
pub open spec fn pull_step(name: Seq<char>, stage: PullStage, ok: bool) -> (PullStage, Seq<EffectModel>) {
    match stage {
        PullStage::FromInbox => if ok {
            (PullStage::Finished, seq![EffectModel::Log(received_line(name))])
        } else {
            (
                PullStage::FromDownloads,
                seq![EffectModel::Run(copy_from_phone_query("/sdcard/Download/"@ + name))],
            )
        },
        PullStage::FromDownloads => if ok {
            (PullStage::Finished, seq![EffectModel::Log(received_line(name))])
        } else {
            (
                PullStage::Finished,
                seq![EffectModel::Log("❌ [NOT FOUND]: "@ + name + " not found on phone."@)],
            )
        },
        PullStage::Finished => (PullStage::Finished, Seq::empty()),
    }
}

/// The log line for a fetched file.
pub open spec fn received_line(name: Seq<char>) -> Seq<char> {
    "✅ [RECEIVED]: "@ + name + " -> PC ~/Downloads/"@
}

fn pull_command(folder: &str, name: &str) -> (c: ShellCommand)
    ensures
        c@ == copy_from_phone_query(folder@ + name@),
{
    let mut remote = String::from_str(folder);
    remote.append(name);
    let mut args = phone_args();
    push_arg(&mut args, "pull");
    push_arg(&mut args, remote.as_str());
    push_arg(&mut args, "/home/senatorherscher/Downloads/");
    assert(args.deep_view() =~= copy_from_phone_query(folder@ + name@).args);
    ShellCommand { program: String::from_str("adb"), args }
}

impl FilePull {
    /// Starts fetching `name`: logs it and copies it from the phone's inbox folder.
    pub fn new(name: String) -> (r: (FilePull, Vec<Effect>))
        ensures
            r.0.name@ == name@,
            r.0.stage == PullStage::FromInbox,
            effects_model(r.1@) == seq![
                EffectModel::Log("📥 [PULLING]: Fetching "@ + name@ + " from phone..."@),
                EffectModel::Run(copy_from_phone_query(phone_inbox() + name@)),
            ],
    {
        let mut effects: Vec<Effect> = Vec::new();
        let mut line = String::from_str("📥 [PULLING]: Fetching ");
        line.append(name.as_str());
        line.append(" from phone...");
        push_effect(&mut effects, Effect::Log(line));
        push_effect(
            &mut effects,
            Effect::Run(pull_command("/sdcard/Download/NexusTUI/", name.as_str())),
        );
        (FilePull { name, stage: PullStage::FromInbox }, effects)
    }

    /// Takes the report `ok` on the last copy and gives the effects to perform next.
    pub fn step(&mut self, ok: bool) -> (effects: Vec<Effect>)
        ensures
            final(self).name == old(self).name,
            (final(self).stage, effects_model(effects@)) == pull_step(
                old(self).name@,
                old(self).stage,
                ok,
            ),
    {
        let mut effects: Vec<Effect> = Vec::new();
        match self.stage {
            PullStage::FromInbox | PullStage::FromDownloads => {
                if ok {
                    let mut line = String::from_str("✅ [RECEIVED]: ");
                    line.append(self.name.as_str());
                    line.append(" -> PC ~/Downloads/");
                    push_effect(&mut effects, Effect::Log(line));
                    self.stage = PullStage::Finished;
                } else if self.stage == PullStage::FromInbox {
                    push_effect(
                        &mut effects,
                        Effect::Run(pull_command("/sdcard/Download/", self.name.as_str())),
                    );
                    self.stage = PullStage::FromDownloads;
                } else {
                    let mut line = String::from_str("❌ [NOT FOUND]: ");
                    line.append(self.name.as_str());
                    line.append(" not found on phone.");
                    push_effect(&mut effects, Effect::Log(line));
                    self.stage = PullStage::Finished;
                }
            },
            PullStage::Finished => {},
        }
        effects
    }
}


/// How many more reports a file sending can take.
pub open spec fn send_reports_left(stage: SendStage) -> int {
    match stage {
        SendStage::CheckingSource => 3,
        SendStage::MakingFolder => 2,
        SendStage::Copying => 1,
        SendStage::Finished => 0,
    }
}

/// A file sending ends after at most three reports, and once finished it asks for nothing.
pub proof fn law_send_terminates(path: Seq<char>, name: Seq<char>, media: bool, stage: SendStage, ok: bool)
    ensures
        stage != SendStage::Finished ==> send_reports_left(send_step(path, name, media, stage, ok).0)
            < send_reports_left(stage),
        stage == SendStage::Finished ==> send_step(path, name, media, stage, ok) == (
            SendStage::Finished,
            Seq::<EffectModel>::empty(),
        ),
{
}

/// The file is copied to the phone only after it was found and the phone's folder was made;
/// a missing file is reported and nothing is run.
pub proof fn law_copy_only_existing(path: Seq<char>, name: Seq<char>, media: bool)
    ensures
        send_step(path, name, media, SendStage::CheckingSource, false) == (
            SendStage::Finished,
            seq![EffectModel::Log("❌ [FILE NOT FOUND]: "@ + path)],
        ),
        send_step(path, name, media, SendStage::CheckingSource, true).0 == SendStage::MakingFolder,
        forall|ok: bool|
            send_step(path, name, media, SendStage::MakingFolder, ok).1 == seq![
                EffectModel::Run(copy_to_phone_query(path)),
            ],
{
}

/// The phone is notified of a received file exactly when the copy succeeded; the gallery is
/// asked to pick it up only for images and videos.
pub proof fn law_notify_on_success(path: Seq<char>, name: Seq<char>, media: bool, ok: bool)
    ensures
        send_step(path, name, media, SendStage::Copying, ok).1.contains(
            EffectModel::Spawn(received_notification(name)),
        ) <==> ok,
        send_step(path, name, media, SendStage::Copying, ok).1.contains(
            EffectModel::Spawn(media_scan_query(name)),
        ) <==> (ok && media),
{
    let effects = send_step(path, name, media, SendStage::Copying, ok).1;
    if ok {
        assert(effects.last() == EffectModel::Spawn(received_notification(name)));
        if media {
            assert(effects[1] == EffectModel::Spawn(media_scan_query(name)));
        } else {
            assert(effects.len() == 2);
            assert(effects[0] != EffectModel::Spawn(media_scan_query(name)));
            assert(!effects.contains(EffectModel::Spawn(media_scan_query(name)))) by {
                if effects.contains(EffectModel::Spawn(media_scan_query(name))) {
                    let k = choose|k: int| 0 <= k < effects.len() && effects[k] == EffectModel::Spawn(media_scan_query(name));
                    assert(k == 0 || k == 1);
                    assert(received_notification(name).args != media_scan_query(name).args) by {
                        assert(received_notification(name).args[3] == "cmd"@);
                        assert(media_scan_query(name).args[3] == "am"@);
                        reveal_strlit("cmd");
                        reveal_strlit("am");
                    }
                }
            }
        }
    } else {
        assert(effects.len() == 1);
        assert(!effects.contains(EffectModel::Spawn(received_notification(name)))) by {
            if effects.contains(EffectModel::Spawn(received_notification(name))) {
                let k = choose|k: int| 0 <= k < effects.len() && effects[k] == EffectModel::Spawn(received_notification(name));
                assert(k == 0);
            }
        }
        assert(!effects.contains(EffectModel::Spawn(media_scan_query(name)))) by {
            if effects.contains(EffectModel::Spawn(media_scan_query(name))) {
                let k = choose|k: int| 0 <= k < effects.len() && effects[k] == EffectModel::Spawn(media_scan_query(name));
                assert(k == 0);
            }
        }
    }
}

/// A fetch tries the download folder only after the inbox folder failed, and ends after at
/// most two reports.
pub proof fn law_pull_falls_back_once(name: Seq<char>, ok: bool)
    ensures
        pull_step(name, PullStage::FromInbox, ok).0 == (if ok {
            PullStage::Finished
        } else {
            PullStage::FromDownloads
        }),
        pull_step(name, PullStage::FromDownloads, ok).0 == PullStage::Finished,
        pull_step(name, PullStage::Finished, ok) == (PullStage::Finished, Seq::<EffectModel>::empty()),
{
}


/// Exactly the lowercased extensions of images and videos that a phone gallery shows — jpg,
/// jpeg, png, webp, gif and mp4 — count as media.
pub proof fn law_media_extensions(ext: Seq<char>)
    ensures
        is_media_extension(ext) <==> set!["jpg"@, "jpeg"@, "png"@, "webp"@, "gif"@, "mp4"@].contains(ext),
{
}

/// A sent file is media exactly when its lowercased extension is one of jpg, jpeg, png, webp,
/// gif and mp4; a file without an extension is judged by the empty extension.
pub proof fn law_sending_judges_media_by_extension(path: Seq<char>)
    ensures
        is_media_extension(sent_extension_lower(path)) <==> set![
            "jpg"@,
            "jpeg"@,
            "png"@,
            "webp"@,
            "gif"@,
            "mp4"@,
        ].contains(lowercase(
            match extension_of(path) {
                Some(e) => e,
                None => Seq::empty(),
            },
        )),
{
}

} // verus!
