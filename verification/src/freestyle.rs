//! Freestyle: the requests that create and drive its VMs, and what its answers mean.

use crate::config::FreestyleBackendConfig;
use crate::error::ErrorView;
use crate::error::Result;
use crate::error::SandboxError;
use crate::numeral::decimal;
use crate::numeral::to_decimal;
use crate::table::distinct_keys;
use crate::table::entries_map;
use crate::table::StringMap;
use crate::text::chars_of;
use crate::text::contains;
use crate::text::same;
use crate::text::starts_with;
use crate::text::strip_prefix;
use crate::text::trim;
use crate::text::trim_end_of;
use crate::text::trim_start_of;
use crate::text::trimmed;
use crate::text::trimmed_end_of;
use crate::text::trimmed_start_of;
use crate::text::views;
use crate::vm::VmState;
use crate::wire::percent_encode;
use crate::wire::percent_encoded;
use vstd::prelude::*;

verus! {

pub const META_MANAGED_BY: &'static str = "chevalier.managed_by";

pub const MANAGED_BY_VALUE: &'static str = "chevalier-sandbox";

pub const META_SESSION_ID: &'static str = "chevalier.session_id";

pub const META_NAME: &'static str = "chevalier.name";

/// In a guest, one file for each mount whose command was launched since boot.
pub const MOUNT_STATE_DIR: &'static str = "/run/chevalier/mounts";

pub const MOUNT_SCRIPT_PATH: &'static str = "/etc/chevalier/mounts.sh";

pub const MOUNT_UNIT_PATH: &'static str = "/etc/systemd/system/chevalier-mounts.service";

pub const MOUNT_UNIT: &'static str = "[Unit]\nDescription=Chevalier shared mounts\nAfter=network-online.target\nWants=network-online.target\n\n[Service]\nType=oneshot\nRemainAfterExit=yes\nExecStart=/bin/sh /etc/chevalier/mounts.sh\n\n[Install]\nWantedBy=multi-user.target\n";

/// The longest that Freestyle lets a command take.
pub const EXEC_AWAIT_MAX_MS: u64 = 300_000;

pub const EXEC_AWAIT_DEFAULT_MS: u64 = 30_000;

pub const ROOT_USER: &'static str = "root";

// ---------------------------------------------------------------------------
// States
// ---------------------------------------------------------------------------
/// The state of a VM at Freestyle.
#[derive(Clone, Copy, Debug, PartialEq, Eq, Structural)]
pub enum FreestyleVmState {
    Starting,
    Running,
    Pausing,
    Paused,
    Stopped,
}

impl FreestyleVmState {
    /// The state that the library shows for a state at Freestyle.
    pub open spec fn shown(self) -> VmState {
        match self {
            FreestyleVmState::Starting => VmState::Creating,
            FreestyleVmState::Running => VmState::Running,
            FreestyleVmState::Pausing => VmState::Paused,
            FreestyleVmState::Paused => VmState::Paused,
            FreestyleVmState::Stopped => VmState::Stopped,
        }
    }

    /// The name of the state in what Freestyle sends.
    pub open spec fn name(self) -> Seq<char> {
        match self {
            FreestyleVmState::Starting => "starting"@,
            FreestyleVmState::Running => "running"@,
            FreestyleVmState::Pausing => "pausing"@,
            FreestyleVmState::Paused => "paused"@,
            FreestyleVmState::Stopped => "stopped"@,
        }
    }

    /// The state of a given name; `None` where no state has it.
    pub fn named(name: &str) -> (state: Option<FreestyleVmState>)
        ensures
            match state {
                Some(s) => s.name() == name@,
                None => forall|s: FreestyleVmState| (#[trigger] s.name()) != name@,
            },
    {
        if same(name, "starting") {
            Some(FreestyleVmState::Starting)
        } else if same(name, "running") {
            Some(FreestyleVmState::Running)
        } else if same(name, "pausing") {
            Some(FreestyleVmState::Pausing)
        } else if same(name, "paused") {
            Some(FreestyleVmState::Paused)
        } else if same(name, "stopped") {
            Some(FreestyleVmState::Stopped)
        } else {
            None
        }
    }

    /// The state that the library shows for a state at Freestyle.
    pub fn as_proto_state(self) -> (state: VmState)
        ensures
            state == self.shown(),
    {
        match self {
            FreestyleVmState::Starting => VmState::Creating,
            FreestyleVmState::Running => VmState::Running,
            FreestyleVmState::Pausing => VmState::Paused,
            FreestyleVmState::Paused => VmState::Paused,
            FreestyleVmState::Stopped => VmState::Stopped,
        }
    }

    /// Whether a VM has to be started before it is handed out.
    pub fn needs_start(self) -> (yes: bool)
        ensures
            yes == !(self is Running || self is Starting),
    {
        match self {
            FreestyleVmState::Running | FreestyleVmState::Starting => false,
            _ => true,
        }
    }
}

/// What Freestyle does to a VM.
#[derive(Clone, Copy, Debug, PartialEq, Eq, Structural)]
pub enum FreestyleVmAction {
    Start,
    Pause,
    Stop,
}

/// What Freestyle does, one after the other, for what is done to a session's VM.
pub fn vm_actions(action: crate::session::SessionVmAction) -> (steps: Vec<FreestyleVmAction>)
    ensures
        steps@ == (match action {
            crate::session::SessionVmAction::Start => seq![FreestyleVmAction::Start],
            crate::session::SessionVmAction::Resume => seq![FreestyleVmAction::Start],
            crate::session::SessionVmAction::Pause => seq![FreestyleVmAction::Pause],
            crate::session::SessionVmAction::Stop => seq![FreestyleVmAction::Stop],
            crate::session::SessionVmAction::Restart => seq![
                FreestyleVmAction::Stop,
                FreestyleVmAction::Start,
            ],
        }),
{
    let mut steps: Vec<FreestyleVmAction> = Vec::new();
    match action {
        crate::session::SessionVmAction::Start => steps.push(FreestyleVmAction::Start),
        crate::session::SessionVmAction::Resume => steps.push(FreestyleVmAction::Start),
        crate::session::SessionVmAction::Pause => steps.push(FreestyleVmAction::Pause),
        crate::session::SessionVmAction::Stop => steps.push(FreestyleVmAction::Stop),
        crate::session::SessionVmAction::Restart => {
            steps.push(FreestyleVmAction::Stop);
            steps.push(FreestyleVmAction::Start);
        },
    }
    steps
}

/// A VM at Freestyle, as far as the library reads it.
#[derive(Debug)]
pub struct FreestyleVm {
    pub id: String,
    pub state: FreestyleVmState,
    pub metadata: StringMap,
    pub display_name: Option<String>,
}

// ---------------------------------------------------------------------------
// URLs
// ---------------------------------------------------------------------------
/// The normal form of the URL of the API: trimmed, without slashes at its end, and absolute.
pub open spec fn api_url_of(raw: Seq<char>) -> std::result::Result<Seq<char>, ErrorView> {
    let url = trimmed_end_of(trimmed(raw), '/');
    if url.len() == 0 {
        Err(ErrorView::InvalidEndpoint("Freestyle API URL must not be empty"@))
    } else if !("https://"@.is_prefix_of(url) || "http://"@.is_prefix_of(url)) {
        Err(ErrorView::InvalidEndpoint("Freestyle API URL must be absolute: "@ + url))
    } else {
        Ok(url)
    }
}

/// The normal form of the URL of the API.
pub fn normalize_api_url(raw: &str) -> (r: Result<String>)
    ensures
        crate::error::outcome(r) == api_url_of(raw@),
{
    let url = trim_end_of(&trim(raw), '/');
    if url.as_str().is_empty() {
        return Err(
            SandboxError::InvalidEndpoint("Freestyle API URL must not be empty".to_owned()),
        );
    }
    if !(starts_with(&url, "https://") || starts_with(&url, "http://")) {
        return Err(
            SandboxError::InvalidEndpoint(
                "Freestyle API URL must be absolute: ".to_owned().concat(&url),
            ),
        );
    }
    Ok(url)
}

/// The URL of the API for web sockets.
pub open spec fn websocket_url(api_url: Seq<char>) -> Seq<char> {
    let base = trimmed_end_of(api_url, '/');
    if "https://"@.is_prefix_of(base) {
        "wss://"@ + base.skip("https://"@.len() as int)
    } else if "http://"@.is_prefix_of(base) {
        "ws://"@ + base.skip("http://"@.len() as int)
    } else {
        "wss://"@ + base
    }
}

/// The URL of the API for web sockets.
pub fn websocket_api_url(api_url: &str) -> (r: String)
    ensures
        r@ == websocket_url(api_url@),
{
    let base = trim_end_of(api_url, '/');
    match strip_prefix(&base, "https://") {
        Some(rest) => return "wss://".to_owned().concat(&rest),
        None => {},
    }
    match strip_prefix(&base, "http://") {
        Some(rest) => return "ws://".to_owned().concat(&rest),
        None => {},
    }
    "wss://".to_owned().concat(&base)
}

/// The settings of a Freestyle backend, checked and in their normal form.
#[derive(Debug)]
pub struct FreestyleControl {
    cfg: FreestyleBackendConfig,
}

/// What is wrong with the settings.
pub open spec fn control_error(cfg: FreestyleBackendConfig) -> Option<ErrorView> {
    match api_url_of(cfg.api_url@) {
        Err(e) => Some(e),
        Ok(_) => if trimmed(cfg.api_key@).len() == 0 {
            Some(
                ErrorView::InvalidConfig(
                    "FREESTYLE_API_KEY is required when SandboxConfig.provider is Freestyle"@,
                ),
            )
        } else {
            None
        },
    }
}

/// The domain under which previews are served: without dots at its start, or the default.
pub open spec fn preview_suffix(raw: Seq<char>) -> Seq<char> {
    let suffix = trimmed_start_of(trimmed(raw), '.');
    if suffix.len() == 0 {
        "style.dev"@
    } else {
        suffix
    }
}

impl FreestyleControl {
    /// The settings.
    pub closed spec fn settings(&self) -> FreestyleBackendConfig {
        self.cfg
    }

    /// Checks settings and brings them to their normal form.
    pub fn new(cfg: FreestyleBackendConfig) -> (r: Result<FreestyleControl>)
        ensures
            match r {
                Ok(c) => {
                    let s = c.settings();
                    &&& control_error(cfg) is None
                    &&& api_url_of(cfg.api_url@) == std::result::Result::<Seq<char>, ErrorView>::Ok(
                        s.api_url@,
                    )
                    &&& s.api_key == cfg.api_key
                    &&& s.snapshot_id@ == trimmed(cfg.snapshot_id@)
                    &&& s.preview_domain_suffix@ == preview_suffix(cfg.preview_domain_suffix@)
                    &&& s.forward_auth_id == cfg.forward_auth_id
                    &&& s.idle_timeout_secs == cfg.idle_timeout_secs
                    &&& s.auto_delete_secs == cfg.auto_delete_secs
                    &&& s.snapshot_auto_delete_secs == cfg.snapshot_auto_delete_secs
                    &&& s.linux_user == cfg.linux_user
                    &&& s.egress_allowlist == cfg.egress_allowlist
                    &&& s.shared_mounts == cfg.shared_mounts
                },
                Err(e) => control_error(cfg) == Some(e@),
            },
    {
        let api_url = match normalize_api_url(&cfg.api_url) {
            Ok(url) => url,
            Err(e) => return Err(e),
        };
        if trim(&cfg.api_key).as_str().is_empty() {
            return Err(
                SandboxError::InvalidConfig(
                    "FREESTYLE_API_KEY is required when SandboxConfig.provider is Freestyle".to_owned(),
                ),
            );
        }
        let suffix = trim_start_of(&trim(&cfg.preview_domain_suffix), '.');
        let mut cfg = cfg;
        cfg.api_url = api_url;
        cfg.snapshot_id = trim(&cfg.snapshot_id);
        cfg.preview_domain_suffix = if suffix.as_str().is_empty() {
            "style.dev".to_owned()
        } else {
            suffix
        };
        Ok(FreestyleControl { cfg })
    }

    /// The settings.
    pub fn config(&self) -> (cfg: &FreestyleBackendConfig)
        ensures
            *cfg == self.settings(),
    {
        &self.cfg
    }

    pub fn api_url(&self) -> (url: &str)
        ensures
            url@ == self.settings().api_url@,
    {
        self.cfg.api_url.as_str()
    }

    pub fn api_key(&self) -> (key: &str)
        ensures
            key@ == self.settings().api_key@,
    {
        self.cfg.api_key.as_str()
    }

    /// The URL of something in the API.
    pub fn url(&self, suffix: &str) -> (url: String)
        ensures
            url@ == trimmed_end_of(self.settings().api_url@, '/') + "/"@ + trimmed_start_of(
                suffix@,
                '/',
            ),
    {
        let base = trim_end_of(&self.cfg.api_url, '/');
        let rest = trim_start_of(suffix, '/');
        base.concat("/").concat(&rest)
    }

    /// The URL of something of a VM.
    pub fn vm_url(&self, vm_id: &str, suffix: &str) -> (url: String)
        ensures
            url@ == trimmed_end_of(self.settings().api_url@, '/') + "/v5/vms/"@ + percent_encoded(
                vm_id@,
            ) + suffix@,
    {
        let base = trim_end_of(&self.cfg.api_url, '/');
        let id = percent_encode(vm_id);
        base.concat("/v5/vms/").concat(&id).concat(suffix)
    }

    /// The URL of a snapshot.
    pub fn snapshot_url(&self, checkpoint_id: &str) -> (url: String)
        ensures
            url@ == trimmed_end_of(self.settings().api_url@, '/') + "/"@ + trimmed_start_of(
                "/v5/snapshots/"@ + percent_encoded(checkpoint_id@),
                '/',
            ),
    {
        let id = percent_encode(checkpoint_id);
        let suffix = "/v5/snapshots/".to_owned().concat(&id);
        self.url(&suffix)
    }

    /// The domain under which a port of a VM is served.
    pub fn preview_domain(&self, vm_id: &str, guest_port: u16) -> (domain: String)
        ensures
            domain@ == preview_domain_of(
                vm_id@,
                guest_port,
                self.settings().preview_domain_suffix@,
            ),
    {
        let label = preview_label(vm_id);
        let port = to_decimal(guest_port as u64);
        "nym-".to_owned().concat(&label).concat("-p").concat(&port).concat(".").concat(
            &self.cfg.preview_domain_suffix,
        )
    }
}

/// A letter or a digit of ASCII.
pub open spec fn is_alnum(c: char) -> bool {
    ('0' <= c <= '9') || ('a' <= c <= 'z') || ('A' <= c <= 'Z')
}

fn alnum(c: char) -> (yes: bool)
    ensures
        yes == is_alnum(c),
{
    ('0' <= c && c <= '9') || ('a' <= c && c <= 'z') || ('A' <= c && c <= 'Z')
}

/// A text without the marks `vm-` at its start.
pub open spec fn without_vm_marks(s: Seq<char>) -> Seq<char>
    decreases s.len(),
{
    if s.len() >= 3 && s[0] == 'v' && s[1] == 'm' && s[2] == '-' {
        without_vm_marks(s.skip(3))
    } else {
        s
    }
}

/// The letters and digits of a text.
pub open spec fn only_alnum(s: Seq<char>) -> Seq<char>
    decreases s.len(),
{
    if s.len() == 0 {
        s
    } else if is_alnum(s.last()) {
        only_alnum(s.drop_last()).push(s.last())
    } else {
        only_alnum(s.drop_last())
    }
}

/// The first characters of a text, forty at most.
pub open spec fn first_forty(s: Seq<char>) -> Seq<char> {
    if s.len() <= 40 {
        s
    } else {
        s.take(40)
    }
}

/// The label that stands for a VM in a domain.
pub open spec fn preview_label_of(vm_id: Seq<char>) -> Seq<char> {
    first_forty(only_alnum(without_vm_marks(vm_id)))
}

/// The domain under which a port of a VM is served.
pub open spec fn preview_domain_of(vm_id: Seq<char>, port: u16, suffix: Seq<char>) -> Seq<char> {
    "nym-"@ + preview_label_of(vm_id) + "-p"@ + decimal(port as nat) + "."@ + suffix
}

fn preview_label(vm_id: &str) -> (label: String)
    ensures
        label@ == preview_label_of(vm_id@),
{
    let chars = chars_of(vm_id);
    let mut from: usize = 0;
    assert(vm_id@.skip(0) =~= vm_id@);
    while chars.len() - from >= 3 && chars[from] == 'v' && chars[from + 1] == 'm' && chars[from + 2]
        == '-'
        invariant
            from <= chars.len(),
            chars@ == vm_id@,
            without_vm_marks(vm_id@) == without_vm_marks(vm_id@.skip(from as int)),
        decreases chars@.len() - from,
    {
        assert(vm_id@.skip(from as int).skip(3) =~= vm_id@.skip(from + 3));
        from += 3;
    }
    let ghost body = vm_id@.skip(from as int);
    assert(body == without_vm_marks(vm_id@));
    let mut kept: Vec<char> = Vec::new();
    let mut i: usize = from;
    assert(body.take(0).len() == 0);
    while i < chars.len()
        invariant
            from <= i <= chars@.len(),
            chars@ == vm_id@,
            body == vm_id@.skip(from as int),
            kept@ == only_alnum(body.take(i - from)),
        decreases chars@.len() - i,
    {
        assert(body.take(i - from + 1).drop_last() =~= body.take(i - from));
        assert(body.take(i - from + 1).last() == chars@[i as int]);
        if alnum(chars[i]) {
            kept.push(chars[i]);
        }
        i += 1;
    }
    assert(body.take(body.len() as int) =~= body);
    if kept.len() <= 40 {
        crate::text::string_of(&kept)
    } else {
        assert(kept@.take(40) =~= kept@.subrange(0, 40));
        crate::text::string_of_range(&kept, 0, 40)
    }
}

// ---------------------------------------------------------------------------
// Slugs
// ---------------------------------------------------------------------------
/// The small letters of a character, which `char::to_lowercase` gives.
pub uninterp spec fn small_letters(c: char) -> Seq<char>;

/// Calls `char::to_lowercase`, whose result depends on the character alone. An ASCII character
/// gives its small letter, and no character gives an ASCII capital.
#[verifier::external_body]
fn to_small_letters(c: char) -> (letters: Vec<char>)
    ensures
        letters@ == small_letters(c),
        (c as u32) < 128 ==> letters@ == seq![crate::text::lower_char(c)],
        forall|i: int| 0 <= i < letters@.len() ==> !('A' <= #[trigger] letters@[i] <= 'Z'),
{
    c.to_lowercase().collect()
}

/// The small letter of every ASCII character of a text is its ASCII small letter.
pub open spec fn lowers_as_ascii(s: Seq<char>) -> bool {
    forall|i: int|
        0 <= i < s.len() && (s[i] as u32) < 128 ==> #[trigger] small_letters(s[i])
            == seq![crate::text::lower_char(s[i])]
}

/// A slug with one more character: what is no letter or digit becomes a dash, and no dash stands
/// at the start or after another. A slug has at most 63 characters.
pub open spec fn slug_with(slug: Seq<char>, c: char) -> Seq<char> {
    if slug.len() >= 63 {
        slug
    } else if is_alnum(c) {
        slug.push(c)
    } else if slug.len() == 0 || slug.last() == '-' {
        slug
    } else {
        slug.push('-')
    }
}

/// A slug with more characters.
pub open spec fn slug_with_all(slug: Seq<char>, s: Seq<char>) -> Seq<char>
    decreases s.len(),
{
    if s.len() == 0 {
        slug
    } else {
        slug_with(slug_with_all(slug, s.drop_last()), s.last())
    }
}

/// The slug of a text, a dash at its end included.
pub open spec fn raw_slug(s: Seq<char>) -> Seq<char>
    decreases s.len(),
{
    if s.len() == 0 {
        Seq::empty()
    } else {
        slug_with_all(raw_slug(s.drop_last()), small_letters(s.last()))
    }
}

/// The slug of a text; empty where nothing is left of it.
pub open spec fn slug_of(s: Seq<char>) -> Seq<char> {
    trimmed_end_of(raw_slug(s), '-')
}

/// The rules for the characters of a slug as it is being built.
pub open spec fn is_slug_prefix(s: Seq<char>) -> bool {
    &&& s.len() <= 63
    &&& forall|i: int|
        0 <= i < s.len() ==> ('a' <= #[trigger] s[i] <= 'z') || ('0' <= s[i] <= '9') || s[i] == '-'
    &&& s.len() > 0 ==> s[0] != '-'
    &&& forall|i: int| 0 < i < s.len() && #[trigger] s[i] == '-' ==> s[i - 1] != '-'
}

/// The rules for slugs: 1 to 63 small letters, digits and dashes, with no dash at either end and
/// no two in a row.
pub open spec fn is_slug(s: Seq<char>) -> bool {
    is_slug_prefix(s) && s.len() > 0 && s.last() != '-'
}

/// No ASCII capital is among the characters.
pub open spec fn no_capitals(s: Seq<char>) -> bool {
    forall|i: int| 0 <= i < s.len() ==> !('A' <= #[trigger] s[i] <= 'Z')
}

proof fn lemma_slug_with(slug: Seq<char>, c: char)
    requires
        is_slug_prefix(slug),
        !('A' <= c <= 'Z'),
    ensures
        is_slug_prefix(slug_with(slug, c)),
{
    let r = slug_with(slug, c);
    if r.len() > slug.len() {
        let d = if is_alnum(c) {
            c
        } else {
            '-'
        };
        assert(r == slug.push(d));
        assert forall|i: int| 0 <= i < r.len() implies ('a' <= #[trigger] r[i] <= 'z') || ('0'
            <= r[i] <= '9') || r[i] == '-' by {
            if i < slug.len() {
                assert(r[i] == slug[i]);
            }
        }
        assert forall|i: int| 0 < i < r.len() && #[trigger] r[i] == '-' implies r[i - 1] != '-' by {
            if i < slug.len() {
                assert(r[i] == slug[i] && r[i - 1] == slug[i - 1]);
            } else {
                assert(r[i - 1] == slug.last());
            }
        }
    }
}

proof fn lemma_trimmed_slug(s: Seq<char>)
    requires
        is_slug_prefix(s),
        trimmed_end_of(s, '-').len() > 0,
    ensures
        is_slug(trimmed_end_of(s, '-')),
    decreases s.len(),
{
    if s.last() == '-' {
        let head = s.drop_last();
        assert(is_slug_prefix(head)) by {
            assert forall|i: int| 0 < i < head.len() && #[trigger] head[i] == '-' implies head[i - 1]
                != '-' by {
                assert(s[i] == '-');
            }
        }
        lemma_trimmed_slug(head);
    }
}

proof fn lemma_raw_slug_of_slug_prefix(s: Seq<char>)
    requires
        is_slug_prefix(s),
        lowers_as_ascii(s),
    ensures
        raw_slug(s) == s,
    decreases s.len(),
{
    if s.len() > 0 {
        let head = s.drop_last();
        let c = s.last();
        assert(c == s[s.len() - 1]);
        assert(is_slug_prefix(head)) by {
            assert forall|i: int| 0 < i < head.len() && #[trigger] head[i] == '-' implies head[i - 1]
                != '-' by {
                assert(s[i] == '-');
            }
        }
        assert(lowers_as_ascii(head)) by {
            assert forall|i: int|
                0 <= i < head.len() && (head[i] as u32) < 128 implies #[trigger] small_letters(
                head[i],
            ) == seq![crate::text::lower_char(head[i])] by {
                assert(small_letters(s[i]) == seq![crate::text::lower_char(s[i])]);
            }
        }
        lemma_raw_slug_of_slug_prefix(head);
        assert(small_letters(s[s.len() - 1]) == seq![c]);
        let letters = seq![c];
        assert(letters.drop_last().len() == 0);
        assert(slug_with_all(head, letters.drop_last()) == head);
        assert(slug_with_all(head, letters) == slug_with(head, c));
        if c == '-' {
            assert(head.len() > 0 && head.last() == s[s.len() - 2]);
        }
        assert(s == head.push(c));
    }
}

/// A slug is its own slug, as a text and as the id of a session.
pub proof fn law_slug_is_its_own_slug(slug: Seq<char>, random_id: Seq<char>)
    requires
        is_slug(slug),
        lowers_as_ascii(slug),
    ensures
        slug_of(slug) == slug,
        session_slug_from(slug, random_id) == slug,
{
    lemma_raw_slug_of_slug_prefix(slug);
}

fn push_slug(slug: &mut Vec<char>, c: char)
    requires
        is_slug_prefix(old(slug)@),
        !('A' <= c <= 'Z'),
    ensures
        final(slug)@ == slug_with(old(slug)@, c),
        is_slug_prefix(final(slug)@),
{
    proof {
        lemma_slug_with(slug@, c);
    }
    if slug.len() >= 63 {
        return ;
    }
    if alnum(c) {
        slug.push(c);
    } else if slug.len() == 0 || slug[slug.len() - 1] == '-' {
    } else {
        slug.push('-');
    }
}

/// The slug of a text; empty where nothing is left of it.
pub fn text_slug(text: &str) -> (slug: String)
    ensures
        slug@ == slug_of(text@),
        lowers_as_ascii(text@),
        slug@.len() > 0 ==> is_slug(slug@),
        is_slug(text@) ==> slug@ == text@,
{
    let chars = chars_of(text);
    let mut slug: Vec<char> = Vec::new();
    let mut i: usize = 0;
    assert(text@.take(0).len() == 0);
    while i < chars.len()
        invariant
            i <= chars@.len(),
            chars@ == text@,
            is_slug_prefix(slug@),
            slug@ == raw_slug(text@.take(i as int)),
            forall|k: int|
                0 <= k < i && (text@[k] as u32) < 128 ==> #[trigger] small_letters(text@[k])
                    == seq![crate::text::lower_char(text@[k])],
        decreases chars@.len() - i,
    {
        let letters = to_small_letters(chars[i]);
        let ghost start = slug@;
        let mut j: usize = 0;
        assert(letters@.take(0).len() == 0);
        while j < letters.len()
            invariant
                j <= letters@.len(),
                is_slug_prefix(slug@),
                no_capitals(letters@),
                slug@ == slug_with_all(start, letters@.take(j as int)),
            decreases letters@.len() - j,
        {
            assert(letters@.take(j + 1).drop_last() =~= letters@.take(j as int));
            assert(!('A' <= letters@[j as int] <= 'Z'));
            push_slug(&mut slug, letters[j]);
            j += 1;
        }
        assert(letters@.take(letters@.len() as int) =~= letters@);
        assert(text@.take(i + 1).drop_last() =~= text@.take(i as int));
        i += 1;
    }
    assert(text@.take(text@.len() as int) =~= text@);
    proof {
        if trimmed_end_of(slug@, '-').len() > 0 {
            lemma_trimmed_slug(slug@);
        }
        if is_slug(text@) {
            law_slug_is_its_own_slug(text@, Seq::empty());
        }
    }
    let text = crate::text::string_of(&slug);
    trim_end_of(&text, '-')
}

/// The slug of a session: that of its id, or where nothing is left of it, one made of a random
/// id.
pub open spec fn session_slug_from(session_id: Seq<char>, random_id: Seq<char>) -> Seq<char> {
    if slug_of(session_id).len() > 0 {
        slug_of(session_id)
    } else {
        "s-"@ + random_id
    }
}

/// The slug of a session, a random id being given.
pub fn session_slug_with(session_id: &str, random_id: &str) -> (slug: String)
    ensures
        slug@ == session_slug_from(session_id@, random_id@),
        lowers_as_ascii(session_id@),
        is_slug(session_id@) ==> slug@ == session_id@,
        crate::wire::is_simple_uuid(random_id@) ==> is_slug(slug@),
{
    let slug = text_slug(session_id);
    if slug.as_str().is_empty() {
        proof {
            reveal_strlit("s-");
            let r = "s-"@ + random_id@;
            if crate::wire::is_simple_uuid(random_id@) {
                assert forall|i: int| 0 <= i < r.len() implies ('a' <= #[trigger] r[i] <= 'z') || (
                '0' <= r[i] <= '9') || r[i] == '-' by {
                    if i >= 2 {
                        assert(r[i] == random_id@[i - 2]);
                    }
                }
                assert forall|i: int| 0 < i < r.len() && #[trigger] r[i] == '-' implies r[i - 1]
                    != '-' by {
                    if i >= 2 {
                        assert(r[i] == random_id@[i - 2]);
                    }
                }
                assert(r.last() == random_id@.last());
            }
        }
        "s-".to_owned().concat(random_id)
    } else {
        slug
    }
}

/// The slug of a session.
pub fn session_slug(session_id: &str) -> (slug: String)
    ensures
        exists|random_id: Seq<char>| #[trigger]
            crate::wire::is_simple_uuid(random_id) && slug@ == session_slug_from(
                session_id@,
                random_id,
            ),
        lowers_as_ascii(session_id@),
        is_slug(slug@),
        is_slug(session_id@) ==> slug@ == session_id@,
{
    let random_id = crate::wire::random_simple_uuid();
    session_slug_with(session_id, &random_id)
}

// ---------------------------------------------------------------------------
// Metadata
// ---------------------------------------------------------------------------
/// The number of bytes of a text.
pub open spec fn byte_len(s: Seq<char>) -> nat {
    vstd::utf8::encode_utf8(s).len()
}

/// The entry is in the map and short enough for the platform.
pub open spec fn entry_fits(metadata: Map<Seq<char>, Seq<char>>, key: Seq<char>) -> bool {
    metadata.contains_key(key) && byte_len(key) <= 63 && byte_len(metadata[key]) <= 63
}

/// `keys` are the keys of the entries that fit, in increasing order.
pub open spec fn are_fitting_keys(
    keys: Seq<Seq<char>>,
    metadata: Map<Seq<char>, Seq<char>>,
) -> bool {
    crate::order::increasing(keys) && forall|x: Seq<char>| #[trigger]
        keys.contains(x) <==> entry_fits(metadata, x)
}

/// The first of the keys, 64 at most.
pub open spec fn first_keys(keys: Seq<Seq<char>>) -> Seq<Seq<char>> {
    if keys.len() <= 64 {
        keys
    } else {
        keys.take(64)
    }
}

/// The entries that the platform takes: of those that fit, the 64 with the smallest keys.
pub fn metadata_within_limits(metadata: &StringMap) -> (kept: StringMap)
    ensures
        exists|keys: Seq<Seq<char>>|
            #![trigger are_fitting_keys(keys, metadata@)]
            are_fitting_keys(keys, metadata@) && kept@ == metadata@.restrict(
                first_keys(keys).to_set(),
            ),
{
    let n = metadata.len();
    let mut fitting: Vec<String> = Vec::new();
    let mut i: usize = 0;
    while i < n
        invariant
            i <= n,
            n == metadata.listed().len(),
            distinct_keys(metadata.listed()),
            metadata@ == entries_map(metadata.listed()),
            forall|x: Seq<char>| #[trigger]
                views(fitting@).contains(x) <==> exists|k: int|
                    0 <= k < i && (#[trigger] metadata.listed()[k]).0@ == x && byte_len(x) <= 63
                        && byte_len(metadata.listed()[k].1@) <= 63,
        decreases n - i,
    {
        let ghost before = views(fitting@);
        let ghost entry = metadata.listed()[i as int];
        let fits: bool = metadata.key_at(i).as_str().as_bytes().len() <= 63
            && metadata.value_at(i).as_str().as_bytes().len() <= 63;
        if fits {
            fitting.push(metadata.key_at(i).clone());
        }
        proof {
            assert forall|x: Seq<char>| #[trigger]
                views(fitting@).contains(x) <==> exists|k: int|
                    0 <= k < i + 1 && (#[trigger] metadata.listed()[k]).0@ == x && byte_len(x) <= 63
                        && byte_len(metadata.listed()[k].1@) <= 63 by {
                if before.contains(x) {
                    let p = choose|p: int| 0 <= p < before.len() && before[p] == x;
                    assert(views(fitting@)[p] == x);
                }
                if fits && x == entry.0@ {
                    assert(views(fitting@)[fitting@.len() - 1] == x);
                    assert(metadata.listed()[i as int].0@ == x);
                }
                if views(fitting@).contains(x) {
                    let p = choose|p: int| 0 <= p < fitting@.len() && views(fitting@)[p] == x;
                    if p < before.len() {
                        assert(before[p] == x);
                        assert(before.contains(x));
                    } else {
                        assert(metadata.listed()[i as int].0@ == x);
                    }
                }
            }
        }
        i += 1;
    }
    let keys = crate::order::sorted_distinct(&fitting);
    proof {
        assert forall|x: Seq<char>| #[trigger]
            views(keys@).contains(x) <==> entry_fits(metadata@, x) by {
            crate::table::lemma_listed_entry(metadata.listed(), x);
            assert(views(keys@).contains(x) <==> views(fitting@).contains(x));
            if entry_fits(metadata@, x) {
                let k = choose|k: int|
                    0 <= k < metadata.listed().len() && (#[trigger] metadata.listed()[k]).0@ == x;
                assert(metadata@[x] == metadata.listed()[k].1@);
            }
            if views(fitting@).contains(x) {
                let k = choose|k: int|
                    0 <= k < n && (#[trigger] metadata.listed()[k]).0@ == x && byte_len(x) <= 63
                        && byte_len(metadata.listed()[k].1@) <= 63;
                assert(metadata@[x] == metadata.listed()[k].1@);
            }
        }
        assert(are_fitting_keys(views(keys@), metadata@));
    }
    let count: usize = if keys.len() <= 64 {
        keys.len()
    } else {
        64
    };
    let mut kept = StringMap::new();
    let mut j: usize = 0;
    assert(kept@ =~= metadata@.restrict(views(keys@).take(0).to_set()));
    while j < count
        invariant
            j <= count <= keys@.len(),
            are_fitting_keys(views(keys@), metadata@),
            kept@ == metadata@.restrict(views(keys@).take(j as int).to_set()),
        decreases count - j,
    {
        let ghost all = views(keys@);
        let ghost key = all[j as int];
        assert(all.contains(key));
        assert(entry_fits(metadata@, key));
        match metadata.get(&keys[j]) {
            Some(value) => {
                kept.insert(keys[j].clone(), value.clone());
            },
            None => {},
        }
        proof {
            assert(all.take(j + 1) =~= all.take(j as int).push(key));
            assert forall|x: Seq<char>| #[trigger]
                all.take(j + 1).to_set().contains(x) <==> all.take(j as int).to_set().contains(x)
                    || x == key by {
                if all.take(j as int).contains(x) {
                    let p = choose|p: int| 0 <= p < j && all.take(j as int)[p] == x;
                    assert(all.take(j + 1)[p] == x);
                }
                if x == key {
                    assert(all.take(j + 1)[j as int] == x);
                }
            }
            assert(kept@ =~= metadata@.restrict(all.take(j + 1).to_set()));
        }
        j += 1;
    }
    proof {
        let all = views(keys@);
        if all.len() <= 64 {
            assert(all.take(count as int) =~= all);
        }
        assert(first_keys(all) == all.take(count as int));
    }
    kept
}

/// What is kept of the metadata fits the platform, and is at most 64 entries.
pub proof fn law_kept_metadata_fits(
    metadata: Map<Seq<char>, Seq<char>>,
    keys: Seq<Seq<char>>,
    kept: Map<Seq<char>, Seq<char>>,
)
    requires
        are_fitting_keys(keys, metadata),
        kept == metadata.restrict(first_keys(keys).to_set()),
    ensures
        kept.dom().finite(),
        kept.dom().len() <= 64,
        forall|k: Seq<char>| #[trigger]
            kept.contains_key(k) ==> kept[k] == metadata[k] && entry_fits(metadata, k),
{
    let first = first_keys(keys);
    vstd::seq_lib::seq_to_set_is_finite(first);
    first.lemma_cardinality_of_set();
    assert(kept.dom().subset_of(first.to_set()));
    vstd::set_lib::lemma_len_subset(kept.dom(), first.to_set());
    assert forall|k: Seq<char>| #[trigger] kept.contains_key(k) implies kept[k] == metadata[k]
        && entry_fits(metadata, k) by {
        assert(first.contains(k));
        let p = choose|p: int| 0 <= p < first.len() && first[p] == k;
        assert(keys[p] == k);
        assert(keys.contains(k));
    }
}

// ---------------------------------------------------------------------------
// Names and addresses
// ---------------------------------------------------------------------------
/// A VM that starts is shown as one that is being made, and one that pauses as paused; each state has its
/// own name.
pub proof fn law_states_are_shown_as_what_they_are(a: FreestyleVmState, b: FreestyleVmState)
    ensures
        a.shown() == VmState::Running <==> a is Running,
        a.shown() == VmState::Stopped <==> a is Stopped,
        a.shown() == VmState::Creating <==> a is Starting,
        a.shown() == VmState::Paused <==> a is Pausing || a is Paused,
        a.name() == b.name() ==> a == b,
        FreestyleVmState::Starting.name() == "starting"@,
        FreestyleVmState::Running.name() == "running"@,
        FreestyleVmState::Pausing.name() == "pausing"@,
        FreestyleVmState::Paused.name() == "paused"@,
        FreestyleVmState::Stopped.name() == "stopped"@,
{
    reveal_strlit("starting");
    reveal_strlit("running");
    reveal_strlit("pausing");
    reveal_strlit("paused");
    reveal_strlit("stopped");
    assert("starting"@.len() == 8);
    assert("running"@.len() == 7 && "running"@[0] == 'r');
    assert("pausing"@.len() == 7 && "pausing"@[0] == 'p');
    assert("stopped"@.len() == 7 && "stopped"@[0] == 's');
    assert("paused"@.len() == 6);
}

/// The address of the API is taken without white space around it and without slashes at its end. It is
/// refused where nothing is left of it, and where it names neither `http` nor `https`.
pub proof fn law_api_address_is_absolute(raw: Seq<char>)
    ensures
        match api_url_of(raw) {
            Ok(url) => {
                &&& url == trimmed_end_of(trimmed(raw), '/')
                &&& "https://"@.is_prefix_of(url) || "http://"@.is_prefix_of(url)
            },
            Err(e) => {
                let url = trimmed_end_of(trimmed(raw), '/');
                &&& !"https://"@.is_prefix_of(url) && !"http://"@.is_prefix_of(url)
                &&& e is InvalidEndpoint
            },
        },
{
    reveal_strlit("https://");
    reveal_strlit("http://");
    let url = trimmed_end_of(trimmed(raw), '/');
    if url.len() == 0 {
        assert(!"https://"@.is_prefix_of(url));
        assert(!"http://"@.is_prefix_of(url));
    }
}

/// A socket is as safe as the address that it is made from.
pub proof fn law_socket_address_keeps_its_host(rest: Seq<char>)
    requires
        rest.len() > 0,
        rest.last() != '/',
    ensures
        websocket_url("https://"@ + rest) == "wss://"@ + rest,
        websocket_url("http://"@ + rest) == "ws://"@ + rest,
        websocket_url("https://"@ + rest + seq!['/']) == "wss://"@ + rest,
{
    reveal_strlit("https://");
    reveal_strlit("http://");
    let s = "https://"@ + rest;
    let p = "http://"@ + rest;
    crate::text::law_sign_at_end_is_taken(s, '/');
    crate::text::law_sign_at_end_is_taken(p, '/');
    assert(s.last() == rest.last() && p.last() == rest.last());
    assert(s.push('/') =~= "https://"@ + rest + seq!['/']);
    assert("https://"@ =~= s.take(8));
    assert("https://"@.is_prefix_of(s));
    assert("http://"@ =~= p.take(7));
    assert("http://"@.is_prefix_of(p));
    assert(!"https://"@.is_prefix_of(p)) by {
        if "https://"@.is_prefix_of(p) {
            assert(p[4] == "https://"@[4]);
            assert(p[4] == "http://"@[4]);
        }
    }
    assert(s.skip(8) =~= rest);
    assert(p.skip(7) =~= rest);
}

/// The settings are usable where the address of the API is one and a key is given; each of the two is
/// asked for.
pub proof fn law_settings_need_address_and_key(cfg: FreestyleBackendConfig)
    ensures
        control_error(cfg) is None <==> api_url_of(cfg.api_url@) is Ok && trimmed(cfg.api_key@).len()
            > 0,
        api_url_of(cfg.api_url@) matches Err(e) ==> control_error(cfg) == Some(e),
        api_url_of(cfg.api_url@) is Ok && trimmed(cfg.api_key@).len() == 0 ==> control_error(
            cfg,
        ) matches Some(ErrorView::InvalidConfig(_)),
{
}

/// Previews stand under the domain that was set, else under `style.dev`.
pub proof fn law_preview_domain_is_as_set(raw: Seq<char>)
    ensures
        trimmed(raw).len() == 0 ==> preview_suffix(raw) == "style.dev"@,
        trimmed(raw).len() > 0 && trimmed(raw)[0] != '.' ==> preview_suffix(raw) == trimmed(raw),
        preview_suffix(raw).len() > 0,
{
    crate::text::law_sign_at_end_is_taken(trimmed(raw), '.');
    reveal_strlit("style.dev");
    assert("style.dev"@.len() == 9);
}

proof fn lemma_only_alnum(s: Seq<char>)
    ensures
        forall|i: int| 0 <= i < only_alnum(s).len() ==> is_alnum(#[trigger] only_alnum(s)[i]),
        (forall|i: int| 0 <= i < s.len() ==> is_alnum(#[trigger] s[i])) ==> only_alnum(s) == s,
    decreases s.len(),
{
    if s.len() > 0 {
        let head = s.drop_last();
        lemma_only_alnum(head);
        let kept = only_alnum(head);
        assert forall|i: int| 0 <= i < only_alnum(s).len() implies is_alnum(
            #[trigger] only_alnum(s)[i],
        ) by {
            if i < kept.len() {
                assert(only_alnum(s)[i] == kept[i]);
            }
        }
        if forall|i: int| 0 <= i < s.len() ==> is_alnum(#[trigger] s[i]) {
            assert forall|i: int| 0 <= i < head.len() implies is_alnum(#[trigger] head[i]) by {
                assert(head[i] == s[i]);
            }
            assert(is_alnum(s[s.len() - 1]));
            assert(head.push(s.last()) =~= s);
        }
    }
}

/// A VM is named in the domain of its preview by the letters and digits of its id, forty of them at
/// most; the mark before an id does not count. Two ports have two domains.
pub proof fn law_preview_names_its_vm(vm_id: Seq<char>, port: u16, other: u16, suffix: Seq<char>)
    ensures
        preview_label_of(vm_id).len() <= 40,
        forall|i: int|
            0 <= i < preview_label_of(vm_id).len() ==> is_alnum(
                #[trigger] preview_label_of(vm_id)[i],
            ),
        preview_label_of("vm-"@ + vm_id) == preview_label_of(vm_id),
        vm_id.len() <= 40 && (forall|i: int| 0 <= i < vm_id.len() ==> is_alnum(#[trigger] vm_id[i]))
            ==> preview_label_of(vm_id) == vm_id,
        preview_domain_of(vm_id, port, suffix) == "nym-"@ + preview_label_of(vm_id) + "-p"@
            + decimal(port as nat) + "."@ + suffix,
        preview_domain_of(vm_id, port, suffix) == preview_domain_of(vm_id, other, suffix) ==> port
            == other,
{
    reveal_strlit("vm-");
    let marked = "vm-"@ + vm_id;
    assert(marked.skip(3) =~= vm_id);
    assert(marked[0] == 'v' && marked[1] == 'm' && marked[2] == '-');
    lemma_only_alnum(without_vm_marks(vm_id));
    let label = preview_label_of(vm_id);
    let all = only_alnum(without_vm_marks(vm_id));
    assert forall|i: int| 0 <= i < label.len() implies is_alnum(#[trigger] label[i]) by {
        assert(label[i] == all[i]);
    }
    if vm_id.len() <= 40 && (forall|i: int| 0 <= i < vm_id.len() ==> is_alnum(#[trigger] vm_id[i])) {
        if vm_id.len() >= 3 {
            assert(is_alnum(vm_id[2]));
        }
    }
    let p = preview_domain_of(vm_id, port, suffix);
    let q = preview_domain_of(vm_id, other, suffix);
    if p == q {
        let head = "nym-"@ + label + "-p"@;
        let n = head.len() as int;
        let a = decimal(port as nat);
        let b = decimal(other as nat);
        reveal_strlit(".");
        crate::numeral::law_written_number_is_read_back(port as u64);
        crate::numeral::law_written_number_is_read_back(other as u64);
        assert(p.len() == n + a.len() + 1 + suffix.len());
        assert(q.len() == n + b.len() + 1 + suffix.len());
        assert(a =~= p.subrange(n, (n + a.len()) as int));
        assert(b =~= q.subrange(n, (n + b.len()) as int));
    }
}

/// A slug grows by the small letters and digits of a name; whatever stands between them becomes one dash,
/// and at 63 signs it ends. No dash stands at its ends.
pub proof fn law_slug_joins_words_by_dashes(slug: Seq<char>, c: char)
    ensures
        slug.len() < 63 && is_alnum(c) ==> slug_with(slug, c) == slug.push(c),
        0 < slug.len() < 63 && !is_alnum(c) && slug.last() != '-' ==> slug_with(slug, c)
            == slug.push('-'),
        slug.len() > 0 && !is_alnum(c) && slug.last() == '-' ==> slug_with(slug, c) == slug,
        slug.len() == 0 && !is_alnum(c) ==> slug_with(slug, c) == slug,
        slug.len() >= 63 ==> slug_with(slug, c) == slug,
        is_alnum(c) <==> ('0' <= c <= '9') || ('a' <= c <= 'z') || ('A' <= c <= 'Z'),
        raw_slug(slug.push(c)) == slug_with_all(raw_slug(slug), small_letters(c)),
        slug_with_all(slug, seq![c]) == slug_with(slug, c),
        slug_of(slug) == trimmed_end_of(raw_slug(slug), '-'),
{
    assert(slug.push(c).drop_last() =~= slug);
    assert(seq![c].drop_last() =~= Seq::<char>::empty());
    assert(slug_with_all(slug, Seq::<char>::empty()) == slug);
}

/// A session whose name has a slug is known by it; any other by a random name.
pub proof fn law_session_is_known_by_its_slug(session_id: Seq<char>, random_id: Seq<char>)
    ensures
        slug_of(session_id).len() > 0 ==> session_slug_from(session_id, random_id) == slug_of(
            session_id,
        ),
        slug_of(session_id).len() == 0 ==> session_slug_from(session_id, random_id) == "s-"@
            + random_id,
{
}

/// Metadata is kept where its key and its value each have at most 63 bytes; of what fits, the first 64
/// keys in their order are kept.
pub proof fn law_metadata_limits(
    metadata: Map<Seq<char>, Seq<char>>,
    key: Seq<char>,
    keys: Seq<Seq<char>>,
    i: int,
)
    ensures
        entry_fits(metadata, key) <==> metadata.contains_key(key) && vstd::utf8::encode_utf8(
            key,
        ).len() <= 63 && vstd::utf8::encode_utf8(metadata[key]).len() <= 63,
        keys.len() <= 64 ==> first_keys(keys) == keys,
        keys.len() > 64 ==> first_keys(keys).len() == 64,
        0 <= i < keys.len() && i < 64 ==> first_keys(keys)[i] == keys[i],
        are_fitting_keys(keys, metadata) && entry_fits(metadata, key) ==> keys.contains(key),
        are_fitting_keys(keys, metadata) && keys.contains(key) ==> entry_fits(metadata, key),
{
}

/// Refused settings tell why.
pub proof fn law_refused_freestyle_settings_tell_why(cfg: FreestyleBackendConfig, raw: Seq<char>)
    ensures
        trimmed_end_of(trimmed(raw), '/').len() == 0 ==> api_url_of(raw) == std::result::Result::<
            Seq<char>,
            ErrorView,
        >::Err(ErrorView::InvalidEndpoint("Freestyle API URL must not be empty"@)),
        trimmed_end_of(trimmed(raw), '/').len() > 0 && api_url_of(raw) is Err ==> api_url_of(raw)
            == std::result::Result::<Seq<char>, ErrorView>::Err(
            ErrorView::InvalidEndpoint(
                "Freestyle API URL must be absolute: "@ + trimmed_end_of(trimmed(raw), '/'),
            ),
        ),
        api_url_of(cfg.api_url@) is Ok && control_error(cfg) is Some ==> control_error(cfg) == Some(
            ErrorView::InvalidConfig(
                "FREESTYLE_API_KEY is required when SandboxConfig.provider is Freestyle"@,
            ),
        ),
{
}

/// Where the script of the mounts and its service stand in a guest, and who runs them.
pub proof fn law_places_in_guest()
    ensures
        MOUNT_SCRIPT_PATH@ == "/etc/chevalier/mounts.sh"@,
        MOUNT_UNIT_PATH@ == "/etc/systemd/system/chevalier-mounts.service"@,
        MOUNT_STATE_DIR@ == "/run/chevalier/mounts"@,
        ROOT_USER@ == "root"@,
        META_SESSION_ID@ == "chevalier.session_id"@,
        META_NAME@ == "chevalier.name"@,
        META_MANAGED_BY@ == "chevalier.managed_by"@,
        MANAGED_BY_VALUE@ == "chevalier-sandbox"@,
        MOUNT_UNIT@
            == "[Unit]\nDescription=Chevalier shared mounts\nAfter=network-online.target\nWants=network-online.target\n\n[Service]\nType=oneshot\nRemainAfterExit=yes\nExecStart=/bin/sh /etc/chevalier/mounts.sh\n\n[Install]\nWantedBy=multi-user.target\n"@,
{
}

} // verus!
