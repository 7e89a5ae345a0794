//! Freestyle: the mounts of a guest, launched once per boot by a script that the guest keeps.

use crate::config::ManagedMountConfig;
use crate::error::ErrorView;
use crate::error::Result;
use crate::error::SandboxError;
use crate::freestyle::is_alnum;
use crate::freestyle::FreestyleControl;
use crate::freestyle::MOUNT_SCRIPT_PATH;
use crate::freestyle::MOUNT_STATE_DIR;
use crate::freestyle_api::ExecAwaitResponse;
use crate::mounts::backend_profile_name;
use crate::mounts::normalize_mount_backend_profile;
use crate::mounts::render_shared_mount_template;
use crate::mounts::rendered_template;
use crate::mounts::SharedMount;
use crate::numeral::signed_decimal;
use crate::numeral::to_signed_decimal;
use crate::order::in_order;
use crate::order::law_sorting_is_a_permutation;
use crate::order::lemma_text_lt_irreflexive;
use crate::order::lemma_text_lt_total;
use crate::order::sort_texts;
use crate::order::sorted_texts;
use crate::order::text_lt;
use crate::shell::quoted;
use crate::shell::quoted_all;
use crate::shell::shell_quote;
use crate::shell::shell_words_join;
use crate::table::distinct_keys;
use crate::table::entries_map;
use crate::table::lemma_listed_entry;
use crate::table::lists;
use crate::table::StringMap;
use crate::text::chars_of;
use crate::text::join;
use crate::text::joined;
use crate::text::string_of;
use crate::text::trim;
use crate::text::trimmed;
use crate::text::views;
use crate::textmap::TextMap;
use vstd::prelude::*;

verus! {

// ---------------------------------------------------------------------------
// Rendering
// ---------------------------------------------------------------------------
/// A mount whose template has been filled in.
#[derive(Debug)]
pub struct RenderedMount {
    pub mount_tag: String,
    pub mountpoint: String,
    pub command: Vec<String>,
    pub env: StringMap,
    pub read_only: bool,
}

/// Where a mount is mounted: at the path of its template, where it has one.
pub open spec fn mountpoint_of(template: ManagedMountConfig, shared: SharedMount) -> Seq<char> {
    if trimmed(template.path@).len() == 0 {
        shared.guest_path@
    } else {
        rendered_template(template.path@, shared, Some(shared.guest_path@))
    }
}

/// Texts, each with its placeholders filled in.
pub open spec fn rendered_all(
    texts: Seq<Seq<char>>,
    shared: SharedMount,
    mountpoint: Seq<char>,
) -> Seq<Seq<char>> {
    Seq::new(texts.len(), |i: int| rendered_template(texts[i], shared, Some(mountpoint)))
}

/// The values of a map with their placeholders filled in.
pub open spec fn rendered_values(
    map: Map<Seq<char>, Seq<char>>,
    shared: SharedMount,
    mountpoint: Seq<char>,
) -> Map<Seq<char>, Seq<char>> {
    map.map_values(|v: Seq<char>| rendered_template(v, shared, Some(mountpoint)))
}

/// The environment of a mount's command: a secret goes before a plain variable of its name.
pub open spec fn rendered_env(
    template: ManagedMountConfig,
    shared: SharedMount,
    mountpoint: Seq<char>,
) -> Map<Seq<char>, Seq<char>> {
    rendered_values(template.env@, shared, mountpoint).union_prefer_right(
        rendered_values(template.secrets@, shared, mountpoint),
    )
}

/// The entries listed first, over those of another map.
proof fn lemma_entries_over(
    base: Map<Seq<char>, Seq<char>>,
    entries: Seq<(String, String)>,
    shared: SharedMount,
    mountpoint: Seq<char>,
)
    requires
        entries.len() > 0,
    ensures
        base.union_prefer_right(rendered_values(entries_map(entries), shared, mountpoint))
            == base.union_prefer_right(
            rendered_values(entries_map(entries.drop_last()), shared, mountpoint),
        ).insert(
            entries.last().0@,
            rendered_template(entries.last().1@, shared, Some(mountpoint)),
        ),
{
    let whole = base.union_prefer_right(
        rendered_values(entries_map(entries), shared, mountpoint),
    );
    let part = base.union_prefer_right(
        rendered_values(entries_map(entries.drop_last()), shared, mountpoint),
    ).insert(entries.last().0@, rendered_template(entries.last().1@, shared, Some(mountpoint)));
    assert(whole.dom() =~= part.dom());
    assert(whole =~= part);
}

/// Puts the entries of a map, rendered, over those that are there.
fn render_into(env: &mut StringMap, map: &StringMap, shared: &SharedMount, mountpoint: &str)
    ensures
        final(env)@ == old(env)@.union_prefer_right(
            rendered_values(map@, *shared, mountpoint@),
        ),
{
    let ghost base = env@;
    let n: usize = map.len();
    let mut i: usize = 0;
    let ghost entries = map.listed();
    proof {
        let none = base.union_prefer_right(
            rendered_values(entries_map(entries.take(0)), *shared, mountpoint@),
        );
        assert(none.dom() =~= base.dom());
        assert(none =~= base);
    }
    while i < n
        invariant
            i <= n,
            n == entries.len(),
            entries == map.listed(),
            env@ == base.union_prefer_right(
                rendered_values(entries_map(entries.take(i as int)), *shared, mountpoint@),
            ),
        decreases n - i,
    {
        let value = render_shared_mount_template(map.value_at(i), shared, Some(mountpoint));
        env.insert(map.key_at(i).clone(), value);
        proof {
            let more = entries.take(i + 1);
            assert(more.drop_last() =~= entries.take(i as int));
            lemma_entries_over(base, more, *shared, mountpoint@);
        }
        i += 1;
    }
    assert(entries.take(entries.len() as int) =~= entries);
}

impl RenderedMount {
    /// Fills in the template of a mount.
    pub fn render(template: &ManagedMountConfig, shared: &SharedMount) -> (m: RenderedMount)
        ensures
            m.mount_tag@ == shared.mount_tag@,
            m.mountpoint@ == mountpoint_of(*template, *shared),
            views(m.command@) == rendered_all(
                views(template.command@),
                *shared,
                mountpoint_of(*template, *shared),
            ),
            m.env@ == rendered_env(*template, *shared, mountpoint_of(*template, *shared)),
            m.read_only == (match template.read_only {
                Some(r) => r,
                None => shared.read_only,
            }),
    {
        let mountpoint = if trim(&template.path).as_str().is_empty() {
            shared.guest_path.clone()
        } else {
            render_shared_mount_template(&template.path, shared, Some(&shared.guest_path))
        };
        let ghost all = rendered_all(views(template.command@), *shared, mountpoint@);
        let mut command: Vec<String> = Vec::new();
        let mut i: usize = 0;
        assert(views(command@) =~= all.take(0));
        while i < template.command.len()
            invariant
                i <= template.command@.len(),
                all == rendered_all(views(template.command@), *shared, mountpoint@),
                views(command@) == all.take(i as int),
            decreases template.command@.len() - i,
        {
            let ghost before = views(command@);
            command.push(
                render_shared_mount_template(&template.command[i], shared, Some(&mountpoint)),
            );
            assert(views(command@) =~= before.push(all[i as int]));
            assert(all.take(i + 1) =~= all.take(i as int).push(all[i as int]));
            i += 1;
        }
        assert(all.take(all.len() as int) =~= all);
        let mut env = StringMap::new();
        render_into(&mut env, &template.env, shared, &mountpoint);
        proof {
            let plain = rendered_values(template.env@, *shared, mountpoint@);
            assert(env@.dom() =~= plain.dom());
            assert(env@ =~= plain);
        }
        render_into(&mut env, &template.secrets, shared, &mountpoint);
        RenderedMount {
            mount_tag: shared.mount_tag.clone(),
            mountpoint,
            command,
            env,
            read_only: match template.read_only {
                Some(r) => r,
                None => shared.read_only,
            },
        }
    }
}

// ---------------------------------------------------------------------------
// The script
// ---------------------------------------------------------------------------
/// A character of a tag as it stands in a file name.
pub open spec fn tag_char(c: char) -> char {
    if is_alnum(c) || c == '-' || c == '_' {
        c
    } else {
        '_'
    }
}

/// A tag as a file name.
pub open spec fn sanitized(tag: Seq<char>) -> Seq<char> {
    tag.map_values(|c: char| tag_char(c))
}

/// A tag as a file name.
pub fn sanitize_tag(tag: &str) -> (name: String)
    ensures
        name@ == sanitized(tag@),
{
    let chars = chars_of(tag);
    let mut name: Vec<char> = Vec::new();
    let mut i: usize = 0;
    while i < chars.len()
        invariant
            i <= chars@.len(),
            chars@ == tag@,
            name@ =~= sanitized(tag@).take(i as int),
        decreases chars@.len() - i,
    {
        let c = chars[i];
        let kept: bool = ('0' <= c && c <= '9') || ('a' <= c && c <= 'z') || ('A' <= c && c
            <= 'Z') || c == '-' || c == '_';
        name.push(
            if kept {
                c
            } else {
                '_'
            },
        );
        i += 1;
    }
    assert(sanitized(tag@).take(tag@.len() as int) =~= sanitized(tag@));
    string_of(&name)
}

/// The file by which a guest knows that a mount has been launched since its boot.
pub open spec fn marker_of(tag: Seq<char>) -> Seq<char> {
    MOUNT_STATE_DIR@ + "/"@ + sanitized(tag)
}

/// The line that exports a variable.
pub open spec fn export_line(entry: (String, String)) -> Seq<char> {
    "export "@ + entry.0@ + "="@ + quoted(entry.1@)
}

/// The lines that export variables.
pub open spec fn export_lines(entries: Seq<(String, String)>) -> Seq<Seq<char>> {
    entries.map_values(|e: (String, String)| export_line(e))
}

/// The lines that export variables, in order, as they stand in a script.
pub open spec fn exports_text(entries: Seq<(String, String)>) -> Seq<char> {
    if entries.len() == 0 {
        ":"@
    } else {
        joined(sorted_texts(export_lines(entries)), "\n  "@)
    }
}

/// The part of the script that launches a mount: it does nothing where the marker exists, and
/// makes the marker after the launch.
pub open spec fn launch_text(
    marker: Seq<char>,
    mountpoint: Seq<char>,
    exports: Seq<char>,
    read_only: bool,
    argv: Seq<char>,
) -> Seq<char> {
    "if [ ! -e "@ + quoted(marker) + " ]; then\n  mkdir -p "@ + quoted(mountpoint) + "\n  "@
        + exports + "\n  export CHEVALIER_VFS_READ_ONLY="@ + (if read_only {
        "true"@
    } else {
        "false"@
    }) + "\n  nohup "@ + argv + " >"@ + quoted(marker + ".log"@)
        + " 2>&1 </dev/null &\n  echo $! > "@ + quoted(marker) + "\nfi\n"@
}

/// The part of the script that launches a mount whose environment is listed in some order.
pub open spec fn launch_with(m: RenderedMount, entries: Seq<(String, String)>) -> Seq<char> {
    launch_text(
        marker_of(m.mount_tag@),
        m.mountpoint@,
        exports_text(entries),
        m.read_only,
        joined(quoted_all(views(m.command@)), " "@),
    )
}

proof fn lemma_without_entry(entries: Seq<(String, String)>, at: int)
    requires
        distinct_keys(entries),
        0 <= at < entries.len(),
    ensures
        distinct_keys(entries.remove(at)),
        entries_map(entries.remove(at)) == entries_map(entries).remove(entries[at].0@),
{
    let key = entries[at].0@;
    let rest = entries.remove(at);
    assert forall|i: int, j: int| 0 <= i < j < rest.len() implies (#[trigger] rest[i]).0@ != (
    #[trigger] rest[j]).0@ by {
        let a = if i < at {
            i
        } else {
            i + 1
        };
        let b = if j < at {
            j
        } else {
            j + 1
        };
        assert(rest[i] == entries[a] && rest[j] == entries[b]);
    }
    let want = entries_map(entries).remove(key);
    let have = entries_map(rest);
    assert forall|k: Seq<char>|
        (#[trigger] have.contains_key(k)) == want.contains_key(k) && (have.contains_key(k)
            ==> have[k] == want[k]) by {
        lemma_listed_entry(entries, k);
        lemma_listed_entry(rest, k);
        if have.contains_key(k) {
            let i = choose|i: int| 0 <= i < rest.len() && (#[trigger] rest[i]).0@ == k;
            let a = if i < at {
                i
            } else {
                i + 1
            };
            assert(rest[i] == entries[a]);
            assert(entries[a].0@ == k);
            assert(k != key);
        }
        if want.contains_key(k) {
            let a = choose|a: int| 0 <= a < entries.len() && (#[trigger] entries[a]).0@ == k;
            let i = if a < at {
                a
            } else {
                a - 1
            };
            assert(a != at);
            assert(rest[i] == entries[a]);
            assert(rest[i].0@ == k);
        }
    }
    assert forall|k: Seq<char>| #[trigger] have.dom().contains(k) == want.dom().contains(k) by {
        assert(have.contains_key(k) == want.contains_key(k));
    }
    assert(have =~= want);
}

/// Two lists of the same map have the same lines, in some order.
proof fn lemma_lines_of_map(a: Seq<(String, String)>, b: Seq<(String, String)>)
    requires
        distinct_keys(a),
        distinct_keys(b),
        entries_map(a) == entries_map(b),
    ensures
        export_lines(a).to_multiset() == export_lines(b).to_multiset(),
        a.len() == b.len(),
    decreases a.len(),
{
    broadcast use vstd::seq_lib::group_to_multiset_ensures;

    if a.len() == 0 {
        if b.len() > 0 {
            lemma_listed_entry(b, b[0].0@);
            assert(entries_map(b).contains_key(b[0].0@));
        }
        assert(export_lines(a) =~= export_lines(b));
    } else {
        let last = a.len() - 1;
        let key = a[last].0@;
        lemma_listed_entry(a, key);
        lemma_listed_entry(b, key);
        let at = choose|i: int| 0 <= i < b.len() && (#[trigger] b[i]).0@ == key;
        lemma_without_entry(a, last);
        lemma_without_entry(b, at);
        lemma_lines_of_map(a.remove(last), b.remove(at));
        assert(export_line(a[last]) == export_line(b[at]));
        let line = export_line(b[at]);
        assert(export_lines(a.remove(last)) =~= export_lines(a).remove(last));
        assert(export_lines(b.remove(at)) =~= export_lines(b).remove(at));
        let la = export_lines(a);
        let lb = export_lines(b);
        assert(la.to_multiset() =~= la.remove(last).to_multiset().insert(line));
        assert(lb.to_multiset() =~= lb.remove(at).to_multiset().insert(line));
    }
}

/// Texts in order are determined by how often each occurs.
proof fn lemma_order_is_unique(a: Seq<Seq<char>>, b: Seq<Seq<char>>)
    requires
        in_order(a),
        in_order(b),
        a.to_multiset() == b.to_multiset(),
    ensures
        a == b,
    decreases a.len(),
{
    broadcast use vstd::seq_lib::group_to_multiset_ensures;

    assert(a.len() == a.to_multiset().len());
    assert(b.len() == b.to_multiset().len());
    if a.len() > 0 {
        let x = a.last();
        let y = b.last();
        assert(a[a.len() - 1] == x && b[b.len() - 1] == y);
        assert(a.contains(x) && b.contains(y));
        assert(a.to_multiset().count(x) > 0 && b.to_multiset().count(y) > 0);
        assert(b.contains(x) && a.contains(y));
        let i = choose|i: int| 0 <= i < b.len() && b[i] == x;
        let j = choose|j: int| 0 <= j < a.len() && a[j] == y;
        lemma_text_lt_total(x, y);
        lemma_text_lt_irreflexive(x);
        assert(!text_lt(y, x)) by {
            if i < b.len() - 1 {
                assert(!text_lt(b[b.len() - 1], b[i]));
            }
        }
        assert(!text_lt(x, y)) by {
            if j < a.len() - 1 {
                assert(!text_lt(a[a.len() - 1], a[j]));
            }
        }
        assert(x == y);
        let ra = a.drop_last();
        let rb = b.drop_last();
        assert(a =~= ra.push(x) && b =~= rb.push(x));
        assert(ra.to_multiset() =~= a.to_multiset().remove(x));
        assert(rb.to_multiset() =~= b.to_multiset().remove(x));
        assert(in_order(ra)) by {
            assert(forall|k: int| 0 <= k < ra.len() ==> ra[k] == a[k]);
        }
        assert(in_order(rb)) by {
            assert(forall|k: int| 0 <= k < rb.len() ==> rb[k] == b[k]);
        }
        lemma_order_is_unique(ra, rb);
    } else {
        assert(a =~= b);
    }
}

/// The script of a mount depends on what its environment holds, not on the order in which that is
/// listed.
pub proof fn law_launch_is_independent_of_listing(
    m: RenderedMount,
    a: Seq<(String, String)>,
    b: Seq<(String, String)>,
)
    requires
        lists(a, m.env@),
        lists(b, m.env@),
    ensures
        launch_with(m, a) == launch_with(m, b),
{
    lemma_lines_of_map(a, b);
    law_sorting_is_a_permutation(export_lines(a));
    law_sorting_is_a_permutation(export_lines(b));
    lemma_order_is_unique(sorted_texts(export_lines(a)), sorted_texts(export_lines(b)));
}

fn write_exports(env: &StringMap) -> (text: String)
    ensures
        text@ == exports_text(env.listed()),
{
    let n: usize = env.len();
    if n == 0 {
        return ":".to_owned();
    }
    let ghost all = export_lines(env.listed());
    let mut lines: Vec<String> = Vec::new();
    let mut i: usize = 0;
    assert(views(lines@) =~= all.take(0));
    while i < n
        invariant
            i <= n,
            n == env.listed().len(),
            all == export_lines(env.listed()),
            views(lines@) == all.take(i as int),
        decreases n - i,
    {
        let ghost before = views(lines@);
        let value = shell_quote(env.value_at(i));
        lines.push("export ".to_owned().concat(env.key_at(i)).concat("=").concat(&value));
        assert(views(lines@) =~= before.push(export_line(env.listed()[i as int])));
        assert(all.take(i + 1) =~= all.take(i as int).push(all[i as int]));
        i += 1;
    }
    assert(all.take(all.len() as int) =~= all);
    let lines = sort_texts(lines);
    join(&lines, "\n  ")
}

impl RenderedMount {
    /// The part of the script that launches the mount.
    pub fn launch_script(&self) -> (script: String)
        ensures
            forall|entries: Seq<(String, String)>|
                #![trigger launch_with(*self, entries)]
                lists(entries, self.env@) ==> script@ == launch_with(*self, entries),
            lists(self.env.listed(), self.env@),
    {
        let name = sanitize_tag(&self.mount_tag);
        let marker = MOUNT_STATE_DIR.to_owned().concat("/").concat(&name);
        let q_marker = shell_quote(&marker);
        let log = marker.concat(".log");
        let q_log = shell_quote(&log);
        let q_mountpoint = shell_quote(&self.mountpoint);
        let exports = write_exports(&self.env);
        let read_only: &str = if self.read_only {
            "true"
        } else {
            "false"
        };
        let argv = shell_words_join(&self.command);
        let script = "if [ ! -e ".to_owned().concat(&q_marker).concat(
            " ]; then\n  mkdir -p ",
        ).concat(&q_mountpoint).concat("\n  ").concat(&exports).concat(
            "\n  export CHEVALIER_VFS_READ_ONLY=",
        ).concat(read_only).concat("\n  nohup ").concat(&argv).concat(" >").concat(&q_log).concat(
            " 2>&1 </dev/null &\n  echo $! > ",
        ).concat(&q_marker).concat("\nfi\n");
        let n: usize = self.env.len();
        proof {
            let listed = self.env.listed();
            assert(script@ == launch_with(*self, listed));
            assert forall|entries: Seq<(String, String)>|
                #![trigger launch_with(*self, entries)]
                lists(entries, self.env@) implies script@ == launch_with(*self, entries) by {
                law_launch_is_independent_of_listing(*self, listed, entries);
            }
        }
        script
    }
}

/// The beginning of the script that launches the mounts of a guest.
pub open spec fn script_head() -> Seq<char> {
    "set -e\n"@ + "mkdir -p "@ + MOUNT_STATE_DIR@ + "\n"@
}

/// The script with the parts of the mounts appended in order, each environment listed in some
/// order.
pub open spec fn script_with(head: Seq<char>, mounts: Seq<RenderedMount>) -> Seq<char>
    decreases mounts.len(),
{
    if mounts.len() == 0 {
        head
    } else {
        script_with(head, mounts.drop_last()) + launch_with(
            mounts.last(),
            mounts.last().env.listed(),
        )
    }
}

/// The script that launches the mounts of a guest.
pub fn mount_script(mounts: &Vec<RenderedMount>) -> (script: String)
    ensures
        script@ == script_with(script_head(), mounts@),
{
    let mut script = "set -e\n".to_owned().concat("mkdir -p ").concat(MOUNT_STATE_DIR).concat("\n");
    let mut i: usize = 0;
    assert(mounts@.take(0).len() == 0);
    while i < mounts.len()
        invariant
            i <= mounts@.len(),
            script@ == script_with(script_head(), mounts@.take(i as int)),
        decreases mounts@.len() - i,
    {
        let part = mounts[i].launch_script();
        script = script.concat(&part);
        proof {
            let m = mounts@[i as int];
            assert(part@ == launch_with(m, m.env.listed()));
            assert(mounts@.take(i + 1).drop_last() =~= mounts@.take(i as int));
            assert(mounts@.take(i + 1).last() == m);
        }
        i += 1;
    }
    assert(mounts@.take(mounts@.len() as int) =~= mounts@);
    script
}

// ---------------------------------------------------------------------------
// Templates of the configuration
// ---------------------------------------------------------------------------
/// The template of a mount: the one under its tag, else under its path in the guest, else under
/// its backend profile.
pub open spec fn template_of(
    templates: Map<Seq<char>, ManagedMountConfig>,
    shared: SharedMount,
) -> Option<ManagedMountConfig> {
    if templates.contains_key(shared.mount_tag@) {
        Some(templates[shared.mount_tag@])
    } else if templates.contains_key(shared.guest_path@) {
        Some(templates[shared.guest_path@])
    } else if templates.contains_key(backend_profile_name(shared.backend_profile@)) {
        Some(templates[backend_profile_name(shared.backend_profile@)])
    } else {
        None
    }
}

/// The error of a mount without a template.
pub open spec fn no_template(shared: SharedMount) -> ErrorView {
    ErrorView::Unsupported(
        "Freestyle shared mount `"@ + shared.mount_tag@ + "` at `"@ + shared.guest_path@
            + "` needs a FreestyleBackendConfig.shared_mounts mapping by mount tag, guest path, or backend profile"@,
    )
}

/// The mount that its template, filled in, gives.
pub open spec fn is_rendered(m: RenderedMount, template: ManagedMountConfig, shared: SharedMount) -> bool {
    &&& m.mount_tag@ == shared.mount_tag@
    &&& m.mountpoint@ == mountpoint_of(template, shared)
    &&& views(m.command@) == rendered_all(
        views(template.command@),
        shared,
        mountpoint_of(template, shared),
    )
    &&& m.env@ == rendered_env(template, shared, mountpoint_of(template, shared))
    &&& m.read_only == (match template.read_only {
        Some(r) => r,
        None => shared.read_only,
    })
}

/// Every mount before the given number has a template.
pub open spec fn templates_found(
    templates: Map<Seq<char>, ManagedMountConfig>,
    mounts: Seq<SharedMount>,
    n: int,
) -> bool {
    forall|i: int| 0 <= i < n ==> template_of(templates, #[trigger] mounts[i]) is Some
}

impl FreestyleControl {
    /// The template of a mount.
    pub fn shared_mount_template(&self, shared: &SharedMount) -> (r: Result<&ManagedMountConfig>)
        ensures
            match r {
                Ok(template) => template_of(self.settings().shared_mounts@, *shared) == Some(
                    *template,
                ),
                Err(e) => template_of(self.settings().shared_mounts@, *shared) is None && e@
                    == no_template(*shared),
            },
    {
        let templates: &TextMap<ManagedMountConfig> = &self.config().shared_mounts;
        match templates.get(&shared.mount_tag) {
            Some(template) => return Ok(template),
            None => {},
        }
        match templates.get(&shared.guest_path) {
            Some(template) => return Ok(template),
            None => {},
        }
        let profile = normalize_mount_backend_profile(&shared.backend_profile);
        match templates.get(&profile) {
            Some(template) => Ok(template),
            None => Err(
                SandboxError::Unsupported(
                    "Freestyle shared mount `".to_owned().concat(&shared.mount_tag).concat(
                        "` at `",
                    ).concat(&shared.guest_path).concat(
                        "` needs a FreestyleBackendConfig.shared_mounts mapping by mount tag, guest path, or backend profile",
                    ),
                ),
            ),
        }
    }

    /// The mounts of a session, each with its template filled in; an error names the first that
    /// has none.
    pub fn resolve_mounts(&self, shared_mounts: &Vec<SharedMount>) -> (r: Result<
        Vec<RenderedMount>,
    >)
        ensures
            match r {
                Ok(rendered) => {
                    &&& rendered@.len() == shared_mounts@.len()
                    &&& templates_found(
                        self.settings().shared_mounts@,
                        shared_mounts@,
                        shared_mounts@.len() as int,
                    )
                    &&& forall|i: int|
                        0 <= i < rendered@.len() ==> is_rendered(
                            #[trigger] rendered@[i],
                            template_of(self.settings().shared_mounts@, shared_mounts@[i])->Some_0,
                            shared_mounts@[i],
                        )
                },
                Err(e) => exists|i: int|
                    #![trigger shared_mounts@[i]]
                    0 <= i < shared_mounts@.len() && templates_found(
                        self.settings().shared_mounts@,
                        shared_mounts@,
                        i,
                    ) && template_of(self.settings().shared_mounts@, shared_mounts@[i]) is None
                        && e@ == no_template(shared_mounts@[i]),
            },
    {
        let mut rendered: Vec<RenderedMount> = Vec::new();
        let mut i: usize = 0;
        while i < shared_mounts.len()
            invariant
                i <= shared_mounts@.len(),
                rendered@.len() == i,
                templates_found(self.settings().shared_mounts@, shared_mounts@, i as int),
                forall|j: int|
                    0 <= j < i ==> is_rendered(
                        #[trigger] rendered@[j],
                        template_of(self.settings().shared_mounts@, shared_mounts@[j])->Some_0,
                        shared_mounts@[j],
                    ),
            decreases shared_mounts@.len() - i,
        {
            match self.shared_mount_template(&shared_mounts[i]) {
                Ok(template) => rendered.push(RenderedMount::render(template, &shared_mounts[i])),
                Err(e) => {
                    assert(e@ == no_template(shared_mounts@[i as int]));
                    return Err(e);
                },
            }
            i += 1;
        }
        Ok(rendered)
    }
}

// ---------------------------------------------------------------------------
// Launching
// ---------------------------------------------------------------------------
/// The longest that a guest is waited for while it launches its mounts.
pub const MOUNT_COMMAND_MS: u64 = 120_000;

/// What is done about the mounts of a guest.
#[derive(Debug)]
pub enum MountWork {
    /// Without mounts of its own an attach runs the script that the guest has kept.
    Replay { command: String },
    /// The script and its unit are written, and the unit is started.
    Bootstrap { script: String, command: String },
}

/// The command that runs the script that a guest has kept.
pub open spec fn replay_command() -> Seq<char> {
    "[ -f "@ + MOUNT_SCRIPT_PATH@ + " ] && /bin/sh "@ + MOUNT_SCRIPT_PATH@ + " || true"@
}

/// The command that starts the unit of a new script.
pub open spec fn bootstrap_command() -> Seq<char> {
    "chmod 600 "@ + MOUNT_SCRIPT_PATH@
        + " && systemctl daemon-reload && systemctl enable --now chevalier-mounts.service && systemctl is-active chevalier-mounts.service"@
}

/// Decides what is done about the mounts of a guest.
pub fn mount_work(mounts: &Vec<RenderedMount>) -> (work: MountWork)
    ensures
        match work {
            MountWork::Replay { command } => mounts@.len() == 0 && command@ == replay_command(),
            MountWork::Bootstrap { script, command } => mounts@.len() > 0 && script@
                == script_with(script_head(), mounts@) && command@ == bootstrap_command(),
        },
{
    if mounts.len() == 0 {
        MountWork::Replay {
            command: "[ -f ".to_owned().concat(MOUNT_SCRIPT_PATH).concat(
                " ] && /bin/sh ",
            ).concat(MOUNT_SCRIPT_PATH).concat(" || true"),
        }
    } else {
        MountWork::Bootstrap {
            script: mount_script(mounts),
            command: "chmod 600 ".to_owned().concat(MOUNT_SCRIPT_PATH).concat(
                " && systemctl daemon-reload && systemctl enable --now chevalier-mounts.service && systemctl is-active chevalier-mounts.service",
            ),
        }
    }
}

/// What a command wrote to its error stream, trimmed.
pub open spec fn complaint(response: ExecAwaitResponse) -> Seq<char> {
    match response.stderr {
        Some(text) => trimmed(text@),
        None => Seq::empty(),
    }
}

fn read_complaint(response: &ExecAwaitResponse) -> (text: String)
    ensures
        text@ == complaint(*response),
{
    match &response.stderr {
        Some(text) => trim(text),
        None => String::new(),
    }
}

/// What the end of the kept script means.
pub fn replay_verdict(response: &ExecAwaitResponse) -> (r: Result<()>)
    ensures
        match r {
            Ok(_) => response.status_code == Some(0i32),
            Err(e) => response.status_code != Some(0i32) && e@ == ErrorView::InvalidResponse(
                "Freestyle mount replay failed: "@ + complaint(*response),
            ),
        },
{
    match response.status_code {
        Some(0) => Ok(()),
        _ => {
            let complaint = read_complaint(response);
            Err(
                SandboxError::InvalidResponse(
                    "Freestyle mount replay failed: ".to_owned().concat(&complaint),
                ),
            )
        },
    }
}

/// What the end of the command that starts the unit means.
pub fn bootstrap_verdict(response: &ExecAwaitResponse) -> (r: Result<()>)
    ensures
        match response.status_code {
            Some(code) => if code == 0 {
                r is Ok
            } else {
                r is Err && r->Err_0@ == ErrorView::InvalidResponse(
                    "Freestyle mount bootstrap exited with status "@ + signed_decimal(code as int)
                        + ": "@ + complaint(*response),
                )
            },
            None => r is Err && r->Err_0@ == ErrorView::DaemonUnavailable(
                "Freestyle mount bootstrap timed out"@,
            ),
        },
{
    match response.status_code {
        Some(code) => if code == 0 {
            Ok(())
        } else {
            let complaint = read_complaint(response);
            let code = to_signed_decimal(code as i64);
            Err(
                SandboxError::InvalidResponse(
                    "Freestyle mount bootstrap exited with status ".to_owned().concat(&code).concat(
                        ": ",
                    ).concat(&complaint),
                ),
            )
        },
        None => Err(
            SandboxError::DaemonUnavailable("Freestyle mount bootstrap timed out".to_owned()),
        ),
    }
}

// ---------------------------------------------------------------------------
// What is mounted, and how
// ---------------------------------------------------------------------------
/// A mount is launched from the template of its tag, else of its path in the guest, else of its backend;
/// without one of these it cannot be.
pub proof fn law_template_is_found_by_tag_first(
    templates: Map<Seq<char>, ManagedMountConfig>,
    m: SharedMount,
)
    ensures
        templates.contains_key(m.mount_tag@) ==> template_of(templates, m) == Some(
            templates[m.mount_tag@],
        ),
        !templates.contains_key(m.mount_tag@) && templates.contains_key(m.guest_path@)
            ==> template_of(templates, m) == Some(templates[m.guest_path@]),
        !templates.contains_key(m.mount_tag@) && !templates.contains_key(m.guest_path@)
            && templates.contains_key(crate::text::lowered(trimmed(m.backend_profile@)))
            ==> template_of(templates, m) == Some(
            templates[crate::text::lowered(trimmed(m.backend_profile@))],
        ),
        !templates.contains_key(m.mount_tag@) && !templates.contains_key(m.guest_path@)
            && !templates.contains_key(crate::text::lowered(trimmed(m.backend_profile@)))
            ==> template_of(templates, m) is None,
{
}

/// A mount stands at the path of its template, else at its own, and each word of its command and each
/// variable is filled in for it; a secret comes before a variable of the same name. It is writable where
/// its template says so, else where it says so itself.
pub proof fn law_template_is_filled_in_for_its_mount(
    m: RenderedMount,
    template: ManagedMountConfig,
    shared: SharedMount,
    i: int,
    key: Seq<char>,
)
    requires
        is_rendered(m, template, shared),
    ensures
        m.mount_tag@ == shared.mount_tag@,
        trimmed(template.path@).len() == 0 ==> m.mountpoint@ == shared.guest_path@,
        trimmed(template.path@).len() > 0 ==> m.mountpoint@ == rendered_template(
            template.path@,
            shared,
            Some(shared.guest_path@),
        ),
        m.command@.len() == template.command@.len(),
        0 <= i < template.command@.len() ==> m.command@[i]@ == rendered_template(
            template.command@[i]@,
            shared,
            Some(m.mountpoint@),
        ),
        template.secrets@.contains_key(key) ==> m.env@.contains_key(key) && m.env@[key]
            == rendered_template(template.secrets@[key], shared, Some(m.mountpoint@)),
        !template.secrets@.contains_key(key) && template.env@.contains_key(key)
            ==> m.env@.contains_key(key) && m.env@[key] == rendered_template(
            template.env@[key],
            shared,
            Some(m.mountpoint@),
        ),
        !template.secrets@.contains_key(key) && !template.env@.contains_key(key)
            ==> !m.env@.contains_key(key),
        template.read_only matches Some(r) ==> m.read_only == r,
        template.read_only is None ==> m.read_only == shared.read_only,
{
    let told = views(m.command@);
    let texts = views(template.command@);
    assert(told.len() == texts.len());
    if 0 <= i < template.command@.len() {
        assert(told[i] == m.command@[i]@);
        assert(texts[i] == template.command@[i]@);
    }
}

/// What says that a mount was launched is a file named after its tag, and after nothing that could lead
/// elsewhere.
pub proof fn law_launch_is_remembered_by_tag(tag: Seq<char>, i: int)
    ensures
        marker_of(tag) == "/run/chevalier/mounts"@ + "/"@ + sanitized(tag),
        sanitized(tag).len() == tag.len(),
        0 <= i < tag.len() ==> sanitized(tag)[i] != '/' && sanitized(tag)[i] != '.',
        0 <= i < tag.len() && (is_alnum(tag[i]) || tag[i] == '-' || tag[i] == '_') ==> sanitized(
            tag,
        )[i] == tag[i],
        0 <= i < tag.len() && !(is_alnum(tag[i]) || tag[i] == '-' || tag[i] == '_') ==> sanitized(
            tag,
        )[i] == '_',
{
}

/// A mount is launched once in a boot: only where nothing says that it was, and then that is noted. Its
/// directory is made first, its variables are exported, and it is told whether it may write.
pub proof fn law_mount_is_launched_once(
    marker: Seq<char>,
    mountpoint: Seq<char>,
    exports: Seq<char>,
    argv: Seq<char>,
)
    ensures
        launch_text(marker, mountpoint, exports, true, argv) == "if [ ! -e "@ + quoted(marker)
            + " ]; then\n  mkdir -p "@ + quoted(mountpoint) + "\n  "@ + exports
            + "\n  export CHEVALIER_VFS_READ_ONLY="@ + "true"@ + "\n  nohup "@ + argv + " >"@
            + quoted(marker + ".log"@) + " 2>&1 </dev/null &\n  echo $! > "@ + quoted(marker)
            + "\nfi\n"@,
        launch_text(marker, mountpoint, exports, false, argv) == "if [ ! -e "@ + quoted(marker)
            + " ]; then\n  mkdir -p "@ + quoted(mountpoint) + "\n  "@ + exports
            + "\n  export CHEVALIER_VFS_READ_ONLY="@ + "false"@ + "\n  nohup "@ + argv + " >"@
            + quoted(marker + ".log"@) + " 2>&1 </dev/null &\n  echo $! > "@ + quoted(marker)
            + "\nfi\n"@,
{
}

/// The script stops at the first failure, makes its own directory, and launches the mounts one after the
/// other, each with its own variables.
pub proof fn law_mounts_are_launched_in_order(head: Seq<char>, mounts: Seq<RenderedMount>, m: RenderedMount)
    ensures
        script_head() == "set -e\n"@ + "mkdir -p "@ + "/run/chevalier/mounts"@ + "\n"@,
        script_with(head, Seq::<RenderedMount>::empty()) == head,
        script_with(head, mounts.push(m)) == script_with(head, mounts) + launch_text(
            marker_of(m.mount_tag@),
            m.mountpoint@,
            exports_text(m.env.listed()),
            m.read_only,
            joined(quoted_all(views(m.command@)), " "@),
        ),
{
    assert(mounts.push(m).drop_last() =~= mounts);
}

/// A variable is exported with its value quoted.
pub proof fn law_variable_is_exported(entries: Seq<(String, String)>, i: int)
    ensures
        0 <= i < entries.len() ==> export_lines(entries)[i] == "export "@ + entries[i].0@ + "="@
            + quoted(entries[i].1@),
        export_lines(entries).len() == entries.len(),
        entries.len() == 0 ==> exports_text(entries) == ":"@,
{
}

/// The script is kept from other users and run by the guest's own service; after a boot it is run again
/// where it is there.
pub proof fn law_script_is_run_by_service(response: ExecAwaitResponse)
    ensures
        replay_command() == "[ -f "@ + "/etc/chevalier/mounts.sh"@ + " ] && /bin/sh "@
            + "/etc/chevalier/mounts.sh"@ + " || true"@,
        bootstrap_command() == "chmod 600 "@ + "/etc/chevalier/mounts.sh"@
            + " && systemctl daemon-reload && systemctl enable --now chevalier-mounts.service && systemctl is-active chevalier-mounts.service"@,
        response.stderr matches Some(text) ==> complaint(response) == trimmed(text@),
        response.stderr is None ==> complaint(response).len() == 0,
{
}

/// A mount without a template is told by its tag and its path. All templates are found where that of each
/// mount is.
pub proof fn law_missing_template_is_told(
    m: SharedMount,
    templates: Map<Seq<char>, ManagedMountConfig>,
    mounts: Seq<SharedMount>,
    n: int,
)
    ensures
        no_template(m) == ErrorView::Unsupported(
            "Freestyle shared mount `"@ + m.mount_tag@ + "` at `"@ + m.guest_path@
                + "` needs a FreestyleBackendConfig.shared_mounts mapping by mount tag, guest path, or backend profile"@,
        ),
        templates_found(templates, mounts, n) && 0 <= n ==> (templates_found(
            templates,
            mounts,
            n + 1,
        ) <==> template_of(templates, mounts[n]) is Some),
        templates_found(templates, mounts, 0),
{
}

/// Mounts are launched within two minutes.
pub proof fn law_mounts_have_two_minutes()
    ensures
        MOUNT_COMMAND_MS == 2 * 60 * 1000,
{
}

} // verus!
