//! The phone: how it is named in the device list, and how its screen is mirrored.
use vstd::prelude::*;

use crate::command::{adb_on_phone, phone_args, push_arg, CommandModel, ShellCommand};
use crate::text::{
    chars_of, contains_text, find_char, first_index_of, has_substring, occurs_at, remove_char,
    split_chars, split_on, string_from_chars, string_from_range, trim, trimmed, without_char,
};

verus! {

/// What `str::to_lowercase` gives for `s`: Unicode's lowercase mapping, character by
/// character, with the context rule for a final capital sigma.
pub uninterp spec fn lowercase(s: Seq<char>) -> Seq<char>;

/// Calls `str::to_lowercase`; its result is named `lowercase`.
#[verifier::external_body]
pub(crate) fn to_lower(s: &str) -> (r: String)
    ensures
        r@ == lowercase(s@),
{
    s.to_lowercase()
}

/// A product name with its maker in front, unless the maker is unknown or the (lowercased)
/// name already mentions the (lowercased) maker.
pub open spec fn with_maker_name(
    name: Seq<char>,
    maker: Seq<char>,
    name_lower: Seq<char>,
    maker_lower: Seq<char>,
) -> Seq<char> {
    if maker.len() > 0 && !has_substring(name_lower, maker_lower) {
        maker + " "@ + name
    } else {
        name
    }
}

/// `name` with `maker` in front where `name_lower` does not mention `maker_lower`.
pub fn with_maker(name: &str, maker: &str, name_lower: &str, maker_lower: &str) -> (r: String)
    ensures
        r@ == with_maker_name(name@, maker@, name_lower@, maker_lower@),
{
    let m = chars_of(maker);
    if m.len() > 0 && !contains_text(name_lower, maker_lower) {
        let mut r = String::from_str(maker);
        r.append(" ");
        r.append(name);
        r
    } else {
        String::from_str(name)
    }
}

/// The phone's display name from its marketing name, model and maker (each already trimmed):
/// the marketing name if known, else the model, each with the maker in front where needed;
/// a generic name if neither is known.
pub open spec fn phone_display_name(market: Seq<char>, model: Seq<char>, maker: Seq<char>) -> Seq<char> {
    if market.len() > 0 {
        with_maker_name(market, maker, lowercase(market), lowercase(maker))
    } else if model.len() > 0 {
        with_maker_name(model, maker, lowercase(model), lowercase(maker))
    } else {
        "Android Device"@
    }
}

/// The host part of `host:port` (everything before the first colon).
pub open spec fn host_of(address: Seq<char>) -> Seq<char> {
    split_on(address, ':')[0]
}

/// The phone's entry in the device list, from its address and the raw output of the three
/// property queries (empty where a query failed).
pub open spec fn phone_entry(
    address: Seq<char>,
    market_out: Seq<char>,
    model_out: Seq<char>,
    maker_out: Seq<char>,
) -> Seq<char> {
    "📱 "@ + phone_display_name(trim(market_out), trim(model_out), trim(maker_out)) + " ("@
        + host_of(address) + ")"@
}

/// The host part of `address`.
pub fn host_part(address: &str) -> (h: String)
    ensures
        h@ == host_of(address@),
{
    let v = chars_of(address);
    let pieces = split_chars(&v, ':');
    proof {
        crate::text::lemma_split_on_nonempty(address@, ':');
    }
    let h = string_from_chars(&pieces[0]);
    assert(h@ =~= pieces.deep_view()[0]);
    h
}

/// The phone's entry in the device list.
pub fn phone_device_entry(address: &str, market_out: &str, model_out: &str, maker_out: &str) -> (r: String)
    ensures
        r@ == phone_entry(address@, market_out@, model_out@, maker_out@),
{
    let market = trimmed(market_out);
    let model = trimmed(model_out);
    let maker = trimmed(maker_out);
    let name = if chars_of(market.as_str()).len() > 0 {
        let a = to_lower(market.as_str());
        let b = to_lower(maker.as_str());
        with_maker(market.as_str(), maker.as_str(), a.as_str(), b.as_str())
    } else if chars_of(model.as_str()).len() > 0 {
        let a = to_lower(model.as_str());
        let b = to_lower(maker.as_str());
        with_maker(model.as_str(), maker.as_str(), a.as_str(), b.as_str())
    } else {
        String::from_str("Android Device")
    };
    let mut r = String::from_str("📱 ");
    r.append(name.as_str());
    r.append(" (");
    let h = host_part(address);
    r.append(h.as_str());
    r.append(")");
    r
}

/// The query of one system property of the device at `address`.
pub open spec fn property_query(address: Seq<char>, property: Seq<char>) -> CommandModel {
    CommandModel {
        program: "adb"@,
        args: seq!["-s"@, address, "shell"@, "getprop"@, property],
    }
}

/// The query of `property` on the device at `address`.
pub fn property_command(address: &str, property: &str) -> (c: ShellCommand)
    ensures
        c@ == property_query(address@, property@),
{
    let mut args: Vec<String> = Vec::new();
    push_arg(&mut args, "-s");
    push_arg(&mut args, address);
    push_arg(&mut args, "shell");
    push_arg(&mut args, "getprop");
    push_arg(&mut args, property);
    assert(args.deep_view() =~= seq!["-s"@, address@, "shell"@, "getprop"@, property@]);
    ShellCommand { program: String::from_str("adb"), args }
}

/// A device entry that names this computer, which cannot be mirrored.
pub open spec fn names_this_computer(target: Seq<char>) -> bool {
    has_substring(target, "127.0.0.1"@) || has_substring(target, "💻"@)
}

/// The entry's parentheses, if it has both, open before they close.
pub open spec fn parentheses_in_order(target: Seq<char>) -> bool {
    match (first_index_of(target, '('), first_index_of(target, ')')) {
        (Some(a), Some(b)) => a < b,
        _ => true,
    }
}

/// The address to mirror for a device entry: what its first parentheses enclose, with the
/// default port where no port is given; the phone's address where there are none.
pub open spec fn mirror_address(target: Seq<char>) -> Seq<char> {
    match (first_index_of(target, '('), first_index_of(target, ')')) {
        (Some(a), Some(b)) => {
            let inner = target.subrange(a + 1, b);
            if inner.contains(':') {
                inner
            } else {
                inner + ":5555"@
            }
        },
        _ => "192.168.1.50:5555"@,
    }
}

/// The mirror window's title part: the entry without the phone marker, trimmed.
pub open spec fn mirror_title(target: Seq<char>) -> Seq<char> {
    trim(without_char(target, '📱'))
}

/// The screen mirroring program's command for `address` with window title `title`.
pub open spec fn mirror_invocation(address: Seq<char>, title: Seq<char>) -> CommandModel {
    CommandModel {
        program: "scrcpy"@,
        args: seq![
            "-s"@,
            address,
            "--video-codec=h265"@,
            "--video-bit-rate=12M"@,
            "--max-size=1920"@,
            "--max-fps=60"@,
            "--video-buffer=30"@,
            "--turn-screen-off"@,
            "--stay-awake"@,
            "--audio-source=output"@,
            "--audio-buffer=50"@,
            "--always-on-top"@,
            "--window-title=NexusTUI - "@ + title,
        ],
    }
}

/// What mirroring a device entry comes to.
pub enum MirrorPlan {
    /// The entry cannot be mirrored; this is the log line saying so.
    Refused(String),
    /// Log `notice`, then start `command`.
    Launch { notice: String, command: ShellCommand },
}

/// The log line when this computer is chosen for mirroring.
pub open spec fn mirror_refusal() -> Seq<char> {
    "❌ [ERROR]: Cannot mirror PC! Please select target phone using '↓'."@
}

/// The log line when mirroring starts for `address`.
pub open spec fn mirror_notice(address: Seq<char>) -> Seq<char> {
    "🚀 [SCRCPY]: Starting "@ + address + " (H.265, 60FPS, Screen-Off, PC Audio)..."@
}

/// Whether the entry `target` can be planned for mirroring.
pub fn mirror_target_is_valid(target: &str) -> (b: bool)
    ensures
        b == (names_this_computer(target@) || parentheses_in_order(target@)),
{
    let pc = contains_text(target, "127.0.0.1") || contains_text(target, "💻");
    let v = chars_of(target);
    let ordered = match (find_char(&v, '('), find_char(&v, ')')) {
        (Some(a), Some(b)) => a < b,
        _ => true,
    };
    pc || ordered
}

fn address_for(target: &str) -> (r: String)
    requires
        parentheses_in_order(target@),
    ensures
        r@ == mirror_address(target@),
{
    let v = chars_of(target);
    match (find_char(&v, '('), find_char(&v, ')')) {
        (Some(a), Some(b)) => {
            let inner = string_from_range(&v, a + 1, b);
            let iv = chars_of(inner.as_str());
            match find_char(&iv, ':') {
                Some(_) => inner,
                None => {
                    let mut r = inner;
                    r.append(":5555");
                    r
                },
            }
        },
        _ => String::from_str("192.168.1.50:5555"),
    }
}

fn mirror_command(address: &str, title: &str) -> (c: ShellCommand)
    ensures
        c@ == mirror_invocation(address@, title@),
{
    let mut args: Vec<String> = Vec::new();
    push_arg(&mut args, "-s");
    push_arg(&mut args, address);
    push_arg(&mut args, "--video-codec=h265");
    push_arg(&mut args, "--video-bit-rate=12M");
    push_arg(&mut args, "--max-size=1920");
    push_arg(&mut args, "--max-fps=60");
    push_arg(&mut args, "--video-buffer=30");
    push_arg(&mut args, "--turn-screen-off");
    push_arg(&mut args, "--stay-awake");
    push_arg(&mut args, "--audio-source=output");
    push_arg(&mut args, "--audio-buffer=50");
    push_arg(&mut args, "--always-on-top");
    let mut last = String::from_str("--window-title=NexusTUI - ");
    last.append(title);
    push_arg(&mut args, last.as_str());
    assert(args.deep_view() =~= mirror_invocation(address@, title@).args);
    ShellCommand { program: String::from_str("scrcpy"), args }
}

/// What mirroring the device entry `target` comes to: a refusal for this computer, otherwise
/// the notice and the mirroring command for the entry's address and title.
pub fn plan_mirror(target: &str) -> (p: MirrorPlan)
    requires
        names_this_computer(target@) || parentheses_in_order(target@),
    ensures
        names_this_computer(target@) ==> (p matches MirrorPlan::Refused(m) && m@
            == mirror_refusal()),
        !names_this_computer(target@) ==> (p matches MirrorPlan::Launch { notice, command }
            && notice@ == mirror_notice(mirror_address(target@)) && command@ == mirror_invocation(
            mirror_address(target@),
            mirror_title(target@),
        )),
{
    if contains_text(target, "127.0.0.1") || contains_text(target, "💻") {
        return MirrorPlan::Refused(
            String::from_str("❌ [ERROR]: Cannot mirror PC! Please select target phone using '↓'."),
        );
    }
    let address = address_for(target);
    let stripped = remove_char(target, '📱');
    let title = trimmed(stripped.as_str());
    let mut notice = String::from_str("🚀 [SCRCPY]: Starting ");
    notice.append(address.as_str());
    notice.append(" (H.265, 60FPS, Screen-Off, PC Audio)...");
    let command = mirror_command(address.as_str(), title.as_str());
    MirrorPlan::Launch { notice, command }
}

/// A diagnostic line of the mirroring program that is worth logging.
pub open spec fn mirror_diagnostic(line: Seq<char>) -> Option<Seq<char>> {
    if has_substring(line, "ERROR"@) || has_substring(line, "warn"@) || has_substring(line, "Could not"@) {
        Some("⚠️ [SCRCPY]: "@ + line)
    } else {
        None
    }
}

/// The log line for a diagnostic line of the mirroring program, if it is worth logging.
pub fn mirror_report(line: &str) -> (r: Option<String>)
    ensures
        r matches Some(s) ==> mirror_diagnostic(line@) == Some(s@),
        r is None ==> mirror_diagnostic(line@) is None,
{
    if contains_text(line, "ERROR") || contains_text(line, "warn") || contains_text(line, "Could not") {
        let mut s = String::from_str("⚠️ [SCRCPY]: ");
        s.append(line);
        Some(s)
    } else {
        None
    }
}

/// The listing of the phone's newest files: the files of its inbox and download folders,
/// newest first across both, directories left out, by name, at most eight.
pub open spec fn phone_listing_query() -> CommandModel {
    adb_on_phone(
        seq![
            "shell"@,
            "ls -tpd /sdcard/Download/NexusTUI/* /sdcard/Download/* 2>/dev/null | grep -v '/$' | sed 's#.*/##' | head -n 8"@,
        ],
    )
}

/// The command that lists the phone's newest files.
pub fn phone_listing_command() -> (c: ShellCommand)
    ensures
        c@ == phone_listing_query(),
{
    let mut args = phone_args();
    push_arg(&mut args, "shell");
    push_arg(
        &mut args,
        "ls -tpd /sdcard/Download/NexusTUI/* /sdcard/Download/* 2>/dev/null | grep -v '/$' | sed 's#.*/##' | head -n 8",
    );
    assert(args.deep_view() =~= phone_listing_query().args);
    ShellCommand { program: String::from_str("adb"), args }
}


/// The address chosen for mirroring always names a port.
pub proof fn law_mirror_address_has_port(target: Seq<char>)
    requires
        parentheses_in_order(target),
    ensures
        mirror_address(target).contains(':'),
{
    reveal_strlit(":5555");
    reveal_strlit("192.168.1.50:5555");
    match (first_index_of(target, '('), first_index_of(target, ')')) {
        (Some(a), Some(b)) => {
            let inner = target.subrange(a + 1, b);
            if !inner.contains(':') {
                assert((inner + ":5555"@)[inner.len() as int] == ':');
            }
        },
        _ => {
            assert("192.168.1.50:5555"@[12] == ':');
        },
    }
}

/// This computer is never mirrored.
pub proof fn law_this_computer_is_refused(username: Seq<char>)
    ensures
        names_this_computer(crate::hub::pc_device_entry(username)),
{
    let e = crate::hub::pc_device_entry(username);
    reveal_strlit("💻 ");
    reveal_strlit("💻");
    assert(e.subrange(0, 1) =~= "💻"@);
    assert(occurs_at(e, "💻"@, 0));
}


/// Whichever name the phone is shown by — its marketing name if that is not blank, otherwise
/// its model — the maker goes in front exactly when the maker is not blank and the name,
/// compared in lowercase, does not already mention the maker in lowercase; the entry always
/// starts with the phone marker and ends with the host in parentheses.
pub proof fn law_phone_entry_names_the_phone(address: Seq<char>, market_out: Seq<char>, model_out: Seq<char>, maker_out: Seq<char>)
    ensures
        ({
            let market = trim(market_out);
            let model = trim(model_out);
            let maker = trim(maker_out);
            let name = if market.len() > 0 { market } else { model };
            let shown = if name.len() == 0 {
                "Android Device"@
            } else if maker.len() > 0 && !has_substring(lowercase(name), lowercase(maker)) {
                maker + " "@ + name
            } else {
                name
            };
            phone_entry(address, market_out, model_out, maker_out) == "📱 "@ + shown + " ("@
                + split_on(address, ':')[0] + ")"@
        }),
{
}

/// The mirroring command runs `scrcpy` on the given address with H.265 video at 12 Mbit/s,
/// at most 1920 pixels and 60 frames per second, a 30 ms video buffer, the phone's screen
/// turned off and kept awake, the phone's audio output forwarded with a 50 ms buffer, the
/// window on top and titled after the device.
pub proof fn law_mirror_command_settings(address: Seq<char>, title: Seq<char>)
    ensures
        ({
            let c = mirror_invocation(address, title);
            &&& c.program == "scrcpy"@
            &&& c.args.len() == 13
            &&& c.args[0] == "-s"@ && c.args[1] == address
            &&& c.args.last() == "--window-title=NexusTUI - "@ + title
            &&& c.args.contains("--video-codec=h265"@)
            &&& c.args.contains("--video-bit-rate=12M"@)
            &&& c.args.contains("--max-size=1920"@)
            &&& c.args.contains("--max-fps=60"@)
            &&& c.args.contains("--video-buffer=30"@)
            &&& c.args.contains("--turn-screen-off"@)
            &&& c.args.contains("--stay-awake"@)
            &&& c.args.contains("--audio-source=output"@)
            &&& c.args.contains("--audio-buffer=50"@)
            &&& c.args.contains("--always-on-top"@)
        }),
{
    let c = mirror_invocation(address, title);
    assert(c.args[2] == "--video-codec=h265"@);
    assert(c.args[3] == "--video-bit-rate=12M"@);
    assert(c.args[4] == "--max-size=1920"@);
    assert(c.args[5] == "--max-fps=60"@);
    assert(c.args[6] == "--video-buffer=30"@);
    assert(c.args[7] == "--turn-screen-off"@);
    assert(c.args[8] == "--stay-awake"@);
    assert(c.args[9] == "--audio-source=output"@);
    assert(c.args[10] == "--audio-buffer=50"@);
    assert(c.args[11] == "--always-on-top"@);
}

} // verus!
