//! Command whitelist management.
//!
//! Enforcement is by PATH restriction: whitelisted binaries are linked into
//! a session directory and PATH points only there.  Commands are classified
//! as state-changing or not for the commit window; in learning mode denied
//! commands are remembered for review.

use vstd::prelude::*;

use crate::keyed::{
    has_key, index_map, keys_unique, lemma_index_map_at, lemma_index_map_push,
    lemma_index_map_update, lemma_index_map_empty,
};
use crate::text::{
    chars_eq, chars_of, contains_exec, has_sub, join, join_chars, lemma_lex_asym,
    lemma_lex_total, lemma_lex_trans, lex_less, lex_lt, push_chars, push_str, split_char,
    split_on, starts_with, starts_with_exec, str_eq, string_eq_str, string_from, string_of,
    views, vviews, copy_range, join_path, path_join,
};

verus! {

broadcast use vstd::string::group_string_axioms;

/// A whitelisted command with metadata.
#[derive(Debug)]
pub struct WhitelistEntry {
    /// Command name (basename only, e.g., "nvidia-smi").
    pub command: String,
    /// Whether this command can change system state.
    pub state_changing: bool,
    /// Human-readable description.
    pub description: String,
    /// Absolute path to the real binary (resolved when links are made).
    pub binary_path: Option<String>,
}

/// The plain contents of a [`WhitelistEntry`].
pub struct WhitelistEntryView {
    pub command: Seq<char>,
    pub state_changing: bool,
    pub description: Seq<char>,
    pub binary_path: Option<Seq<char>>,
}

impl View for WhitelistEntry {
    type V = WhitelistEntryView;

    open spec fn view(&self) -> WhitelistEntryView {
        WhitelistEntryView {
            command: self.command@,
            state_changing: self.state_changing,
            description: self.description@,
            binary_path: match self.binary_path {
                Some(p) => Some(p@),
                None => None,
            },
        }
    }
}

impl Clone for WhitelistEntry {
    fn clone(&self) -> (r: Self)
        ensures
            r@ == self@,
    {
        WhitelistEntry {
            command: self.command.clone(),
            state_changing: self.state_changing,
            description: self.description.clone(),
            binary_path: match &self.binary_path {
                Some(p) => Some(p.clone()),
                None => None,
            },
        }
    }
}

/// Key of an entry in a whitelist table: its command name.
pub open spec fn entry_key() -> spec_fn(WhitelistEntry) -> Seq<char> {
    |e: WhitelistEntry| e.command@
}

/// Value of an entry in a whitelist table: its plain contents.
pub open spec fn entry_val() -> spec_fn(WhitelistEntry) -> WhitelistEntryView {
    |e: WhitelistEntry| e@
}

/// The map from command name to entry that a table of entries stands for.
pub open spec fn table(v: Seq<WhitelistEntry>) -> Map<Seq<char>, WhitelistEntryView> {
    index_map(v, entry_key(), entry_val())
}

/// A built-in entry: no binary path resolved yet.
pub open spec fn builtin(command: Seq<char>, state_changing: bool, description: Seq<char>) -> WhitelistEntryView {
    WhitelistEntryView { command, state_changing, description, binary_path: None }
}

/// The entry given to a command added from a vCluster policy: not
/// state-changing, with a fixed description.
pub open spec fn policy_entry(command: Seq<char>) -> WhitelistEntryView {
    builtin(command, false, "Added from vCluster policy"@)
}

/// The default whitelist (common HPC diagnostics).  It leaves out editors
/// and pagers with shell escapes, interpreters and `find`.
pub open spec fn default_whitelist() -> Map<Seq<char>, WhitelistEntryView> {
    Map::empty()
        .insert("nvidia-smi"@, builtin("nvidia-smi"@, false, "NVIDIA GPU status and diagnostics"@))
        .insert("rocm-smi"@, builtin("rocm-smi"@, false, "AMD GPU status and diagnostics"@))
        .insert("echo"@, builtin("echo"@, false, "Print arguments"@))
        .insert("dmesg"@, builtin("dmesg"@, false, "Kernel ring buffer"@))
        .insert("lspci"@, builtin("lspci"@, false, "PCI device listing"@))
        .insert("lsmod"@, builtin("lsmod"@, false, "Loaded kernel modules"@))
        .insert("lsblk"@, builtin("lsblk"@, false, "Block device listing"@))
        .insert("lscpu"@, builtin("lscpu"@, false, "CPU information"@))
        .insert("uname"@, builtin("uname"@, false, "System information"@))
        .insert("hostname"@, builtin("hostname"@, false, "Show hostname"@))
        .insert("uptime"@, builtin("uptime"@, false, "System uptime"@))
        .insert("free"@, builtin("free"@, false, "Memory usage"@))
        .insert("df"@, builtin("df"@, false, "Disk usage"@))
        .insert("mount"@, builtin("mount"@, true, "Mount operations (can mount filesystems)"@))
        .insert("ps"@, builtin("ps"@, false, "Process listing"@))
        .insert("top"@, builtin("top"@, false, "Process monitor"@))
        .insert("htop"@, builtin("htop"@, false, "Interactive process monitor"@))
        .insert("ip"@, builtin("ip"@, true, "Network configuration"@))
        .insert("ss"@, builtin("ss"@, false, "Socket statistics"@))
        .insert("ping"@, builtin("ping"@, false, "Network connectivity test"@))
        .insert("traceroute"@, builtin("traceroute"@, false, "Network path tracing"@))
        .insert("ethtool"@, builtin("ethtool"@, false, "Network interface details"@))
        .insert("cat"@, builtin("cat"@, false, "Display file contents"@))
        .insert("head"@, builtin("head"@, false, "Display first lines"@))
        .insert("tail"@, builtin("tail"@, false, "Display last lines"@))
        .insert("wc"@, builtin("wc"@, false, "Word/line count"@))
        .insert("ls"@, builtin("ls"@, false, "List directory contents"@))
        .insert("stat"@, builtin("stat"@, false, "File status"@))
        .insert("file"@, builtin("file"@, false, "File type identification"@))
        .insert("md5sum"@, builtin("md5sum"@, false, "Compute MD5 checksum"@))
        .insert("sha256sum"@, builtin("sha256sum"@, false, "Compute SHA-256 checksum"@))
        .insert("diff"@, builtin("diff"@, false, "Compare files"@))
        .insert("grep"@, builtin("grep"@, false, "Search file contents"@))
        .insert("journalctl"@, builtin("journalctl"@, false, "Systemd journal viewer"@))
        .insert("sysctl"@, builtin("sysctl"@, true, "Kernel parameter query/set"@))
        .insert("systemctl"@, builtin("systemctl"@, true, "Service management"@))
        .insert("modprobe"@, builtin("modprobe"@, true, "Load kernel module"@))
        .insert("umount"@, builtin("umount"@, true, "Unmount filesystem"@))
}

/// `m` with each command of `cmds` that it lacks added as a policy entry,
/// in order; commands already present keep their entry.
pub open spec fn with_policy(
    m: Map<Seq<char>, WhitelistEntryView>,
    cmds: Seq<Seq<char>>,
) -> Map<Seq<char>, WhitelistEntryView>
    decreases cmds.len(),
{
    if cmds.len() == 0 {
        m
    } else {
        let prev = with_policy(m, cmds.drop_last());
        if prev.contains_key(cmds.last()) {
            prev
        } else {
            prev.insert(cmds.last(), policy_entry(cmds.last()))
        }
    }
}

/// Whether `r` lists the entries of `m` once each, in strictly increasing
/// order of command name.
pub open spec fn sorted_listing(r: Seq<WhitelistEntryView>, m: Map<Seq<char>, WhitelistEntryView>) -> bool {
    &&& forall|i: int, j: int| 0 <= i < j < r.len() ==> lex_lt(r[i].command, r[j].command)
    &&& forall|i: int| 0 <= i < r.len() ==> m.contains_key(r[i].command) && m[r[i].command] == r[i]
    &&& forall|k: Seq<char>| m.contains_key(k) ==> exists|i: int| 0 <= i < r.len() && r[i].command == k
}

/// The views of a sequence of entry references.
pub open spec fn ref_views(r: Seq<&WhitelistEntry>) -> Seq<WhitelistEntryView> {
    r.map_values(|e: &WhitelistEntry| e@)
}

/// The list of denied commands after a denial of `c`: it is added when
/// learning and not yet recorded.
pub open spec fn after_denial(denied: Seq<Seq<char>>, learning: bool, c: Seq<char>) -> Seq<Seq<char>> {
    if learning && !denied.contains(c) {
        denied.push(c)
    } else {
        denied
    }
}

/// The known shell-escape risk of a command, if any.
pub open spec fn escape_risk(c: Seq<char>) -> Option<Seq<char>> {
    if c == "vi"@ { Some("Can spawn :!bash \u{2014} use 'view' (read-only) instead"@) }
    else if c == "vim"@ { Some("Can spawn :!bash \u{2014} use 'view' (read-only) instead"@) }
    else if c == "less"@ { Some("Can spawn !cmd \u{2014} set LESSSECURE=1 or exclude"@) }
    else if c == "more"@ { Some("Can spawn !cmd \u{2014} set LESSSECURE=1 or exclude"@) }
    else if c == "man"@ { Some("Uses less/more pager \u{2014} same escape risk"@) }
    else if c == "python"@ { Some("Arbitrary code execution"@) }
    else if c == "python3"@ { Some("Arbitrary code execution"@) }
    else if c == "perl"@ { Some("Arbitrary code execution"@) }
    else if c == "ruby"@ { Some("Arbitrary code execution"@) }
    else if c == "lua"@ { Some("Arbitrary code execution"@) }
    else if c == "node"@ { Some("Arbitrary code execution"@) }
    else if c == "bash"@ { Some("Unrestricted shell"@) }
    else if c == "sh"@ { Some("Unrestricted shell"@) }
    else if c == "zsh"@ { Some("Unrestricted shell"@) }
    else if c == "find"@ { Some("-exec flag enables arbitrary execution"@) }
    else if c == "xargs"@ { Some("Can execute arbitrary commands"@) }
    else if c == "awk"@ { Some("system() function enables execution"@) }
    else if c == "nawk"@ { Some("system() function enables execution"@) }
    else if c == "gawk"@ { Some("system() function enables execution"@) }
    else { None }
}

/// The risky commands of `cmds`, in order, each with its risk.
pub open spec fn audit(cmds: Seq<Seq<char>>) -> Seq<(Seq<char>, Seq<char>)>
    decreases cmds.len(),
{
    if cmds.len() == 0 {
        Seq::empty()
    } else {
        let prev = audit(cmds.drop_last());
        match escape_risk(cmds.last()) {
            Some(reason) => prev.push((cmds.last(), reason)),
            None => prev,
        }
    }
}

/// The views of a sequence of string-slice pairs.
pub open spec fn pair_views(v: Seq<(String, String)>) -> Seq<(Seq<char>, Seq<char>)> {
    v.map_values(|p: (String, String)| (p.0@, p.1@))
}

/// The views of a sequence of string slices.
pub open spec fn str_views(v: Seq<&str>) -> Seq<Seq<char>> {
    v.map_values(|s: &str| s@)
}

/// One step of path normalization: `..` drops the last kept component,
/// `.` and empty components are skipped, others are kept.
pub open spec fn norm_step(st: Seq<Seq<char>>, part: Seq<char>) -> Seq<Seq<char>> {
    if part == seq!['.', '.'] {
        if st.len() > 0 { st.drop_last() } else { st }
    } else if part == seq!['.'] || part.len() == 0 {
        st
    } else {
        st.push(part)
    }
}

/// The components kept after normalizing `parts` from left to right.
pub open spec fn norm_components(parts: Seq<Seq<char>>) -> Seq<Seq<char>>
    decreases parts.len(),
{
    if parts.len() == 0 {
        Seq::empty()
    } else {
        norm_step(norm_components(parts.drop_last()), parts.last())
    }
}

/// An argument as an absolute path with `..`, `.` and empty components
/// resolved.
pub open spec fn normalize_path(arg: Seq<char>) -> Seq<char> {
    seq!['/'] + join(norm_components(split_char(arg, '/')), seq!['/'])
}

/// Paths that must never be accessed through exec or shell.
pub open spec fn blocked_paths() -> Seq<Seq<char>> {
    seq![
        "/etc/shadow"@,
        "/etc/gshadow"@,
        "/etc/master.passwd"@,
        "/root/"@,
        "/.ssh/"@,
        "/etc/ssl/private/"@,
        "/etc/pact/ca/"@,
        "/run/pact/ca/"@,
    ]
}

/// Path prefixes that file-reading commands may not read.
pub open spec fn sensitive_prefixes() -> Seq<Seq<char>> {
    seq!["/etc/shadow"@, "/etc/gshadow"@, "/root"@]
}

/// Whether a normalized path equals, starts with or contains a blocked path.
pub open spec fn hits_blocked(n: Seq<char>) -> bool {
    exists|i: int| 0 <= i < blocked_paths().len()
        && (n == blocked_paths()[i] || starts_with(n, blocked_paths()[i]) || has_sub(n, blocked_paths()[i]))
}

/// Whether a normalized path starts with a sensitive prefix.
pub open spec fn hits_prefix(n: Seq<char>) -> bool {
    exists|i: int| 0 <= i < sensitive_prefixes().len() && starts_with(n, sensitive_prefixes()[i])
}

/// Commands that read files.
pub open spec fn is_file_reader(c: Seq<char>) -> bool {
    c == "cat"@ || c == "head"@ || c == "tail"@ || c == "grep"@ || c == "less"@
        || c == "diff"@ || c == "wc"@ || c == "file"@ || c == "md5sum"@ || c == "sha256sum"@
        || c == "stat"@
}

/// Arguments that are checked as paths: absolute, or containing `..`.
pub open spec fn path_like(arg: Seq<char>) -> bool {
    (arg.len() > 0 && arg[0] == '/') || has_sub(arg, seq!['.', '.'])
}

/// The refusal of one argument of `command`, if it names a sensitive path.
pub open spec fn arg_denial(command: Seq<char>, arg: Seq<char>) -> Option<Seq<char>> {
    if !path_like(arg) {
        None
    } else if hits_blocked(normalize_path(arg)) {
        Some("access denied: "@ + command + " cannot access "@ + arg + " (sensitive path)"@)
    } else if is_file_reader(command) && hits_prefix(normalize_path(arg)) {
        Some("access denied: "@ + command + " cannot read "@ + arg + " (sensitive path)"@)
    } else {
        None
    }
}

/// The refusal of the first refused argument, if any.
pub open spec fn first_denial(command: Seq<char>, args: Seq<Seq<char>>) -> Option<Seq<char>>
    decreases args.len(),
{
    if args.len() == 0 {
        None
    } else {
        match arg_denial(command, args[0]) {
            Some(m) => Some(m),
            None => first_denial(command, args.drop_first()),
        }
    }
}

/// Manages the command whitelist for exec and shell.
pub struct WhitelistManager {
    /// Commands allowed for `pact exec`.
    exec_whitelist: Vec<WhitelistEntry>,
    /// Commands allowed in `pact shell` (PATH-restricted).
    shell_whitelist: Vec<WhitelistEntry>,
    /// Learning mode: captures denied commands for admin review.
    learning_mode: bool,
    /// Commands denied in learning mode (for admin review).
    denied_commands: Vec<String>,
}

/// Position of the entry for `cmd` in `v`, if any.
fn find_entry(v: &Vec<WhitelistEntry>, cmd: &str) -> (r: Option<usize>)
    ensures
        r matches Some(i) ==> i < v@.len() && v@[i as int].command@ == cmd@,
        r is None ==> !has_key(v@, entry_key(), cmd@),
{
    let mut i: usize = 0;
    while i < v.len()
        invariant
            i <= v@.len(),
            forall|k: int| 0 <= k < i ==> v@[k].command@ != cmd@,
        decreases v.len() - i,
    {
        if string_eq_str(&v[i].command, cmd) {
            return Some(i);
        }
        i = i + 1;
    }
    proof {
        if has_key(v@, entry_key(), cmd@) {
            let k = choose|k: int| 0 <= k < v@.len() && entry_key()(v@[k]) == cmd@;
            assert(v@[k].command@ != cmd@);
        }
    }
    None
}

/// Inserts `e` into the table, replacing the entry with the same command.
fn upsert(v: &mut Vec<WhitelistEntry>, e: WhitelistEntry)
    requires
        keys_unique(old(v)@, entry_key()),
    ensures
        keys_unique(final(v)@, entry_key()),
        table(final(v)@) == table(old(v)@).insert(e.command@, e@),
{
    match find_entry(v, e.command.as_str()) {
        Some(i) => {
            proof {
                lemma_index_map_update(v@, entry_key(), entry_val(), i as int, e);
            }
            v.set(i, e);
        },
        None => {
            proof {
                lemma_index_map_push(v@, entry_key(), entry_val(), e);
            }
            v.push(e);
        },
    }
}

/// Whether `v` contains a string equal to `s`.
fn contains_string(v: &Vec<String>, s: &str) -> (r: bool)
    ensures
        r == views(v@).contains(s@),
{
    let mut i: usize = 0;
    while i < v.len()
        invariant
            i <= v@.len(),
            forall|k: int| 0 <= k < i ==> v@[k]@ != s@,
        decreases v.len() - i,
    {
        if string_eq_str(&v[i], s) {
            assert(views(v@)[i as int] == s@);
            return true;
        }
        i = i + 1;
    }
    proof {
        if views(v@).contains(s@) {
            let k = choose|k: int| 0 <= k < views(v@).len() && views(v@)[k] == s@;
            assert(v@[k]@ != s@);
        }
    }
    false
}

/// Adds a policy entry for each command of `commands` the table lacks.
fn add_policy(v: &mut Vec<WhitelistEntry>, commands: &[String])
    requires
        keys_unique(old(v)@, entry_key()),
    ensures
        keys_unique(final(v)@, entry_key()),
        table(final(v)@) == with_policy(table(old(v)@), views(commands@)),
{
    let ghost m0 = table(v@);
    let mut i: usize = 0;
    proof {
        assert(views(commands@).take(0).len() == 0);
    }
    while i < commands.len()
        invariant
            i <= commands@.len(),
            keys_unique(v@, entry_key()),
            table(v@) == with_policy(m0, views(commands@).take(i as int)),
        decreases commands.len() - i,
    {
        let cmd = &commands[i];
        proof {
            let t = views(commands@).take(i + 1);
            assert(t.drop_last() =~= views(commands@).take(i as int));
            assert(t.last() == cmd@);
        }
        match find_entry(v, cmd.as_str()) {
            Some(j) => {
                proof {
                    lemma_index_map_at(v@, entry_key(), entry_val(), j as int);
                }
            },
            None => {
                let e = WhitelistEntry {
                    command: cmd.clone(),
                    state_changing: false,
                    description: string_from("Added from vCluster policy"),
                    binary_path: None,
                };
                proof {
                    lemma_index_map_push(v@, entry_key(), entry_val(), e);
                }
                v.push(e);
            },
        }
        i = i + 1;
    }
    proof {
        assert(views(commands@).take(commands@.len() as int) =~= views(commands@));
    }
}

/// The entries of a table in increasing order of command name.
#[verifier::spinoff_prover]
#[verifier::rlimit(60)]
fn sorted_entries(v: &Vec<WhitelistEntry>) -> (r: Vec<&WhitelistEntry>)
    requires
        keys_unique(v@, entry_key()),
    ensures
        sorted_listing(ref_views(r@), table(v@)),
{
    let mut r: Vec<&WhitelistEntry> = Vec::new();
    let mut j: usize = 0;
    while j < v.len()
        invariant
            j <= v@.len(),
            keys_unique(v@, entry_key()),
            forall|a: int, b: int| 0 <= a < b < r@.len() ==> lex_lt(r@[a].command@, r@[b].command@),
            forall|a: int| #![trigger r@[a]] 0 <= a < r@.len() ==> exists|k: int| 0 <= k < j && *r@[a] == #[trigger] v@[k],
            forall|k: int| #![trigger v@[k]] 0 <= k < j ==> exists|a: int| 0 <= a < r@.len() && #[trigger] r@[a].command@ == v@[k].command@,
        decreases v.len() - j,
    {
        let x = &v[j];
        let xc = chars_of(x.command.as_str());
        let mut p: usize = 0;
        while p < r.len() && lex_less(&chars_of(r[p].command.as_str()), &xc)
            invariant
                p <= r@.len(),
                xc@ == x.command@,
                forall|a: int| 0 <= a < p ==> lex_lt(r@[a].command@, x.command@),
            decreases r.len() - p,
        {
            p = p + 1;
        }
        let ghost old_r = r@;
        proof {
            // Every listed command differs from x's, as x's key is new.
            assert forall|a: int| 0 <= a < old_r.len() implies old_r[a].command@ != x.command@ by {
                let k = choose|k: int| 0 <= k < j && *old_r[a] == v@[k];
                assert(entry_key()(v@[k]) != entry_key()(v@[j as int]));
            }
            if p < old_r.len() {
                lemma_lex_total(old_r[p as int].command@, x.command@);
            }
            assert forall|a: int| p <= a < old_r.len() implies lex_lt(x.command@, old_r[a].command@) by {
                if a > p {
                    lemma_lex_trans(x.command@, old_r[p as int].command@, old_r[a].command@);
                }
            }
        }
        r.insert(p, x);
        proof {
            assert(r@ =~= old_r.insert(p as int, x));
            assert forall|a: int, b: int| 0 <= a < b < r@.len() implies lex_lt(r@[a].command@, r@[b].command@) by {
                if b < p {
                } else if b == p {
                } else if a < p {
                    lemma_lex_trans(r@[a].command@, x.command@, r@[b].command@);
                } else if a == p {
                } else {
                }
            }
            assert forall|a: int| #![trigger r@[a]] 0 <= a < r@.len() implies exists|k: int| 0 <= k < j + 1 && *r@[a] == #[trigger] v@[k] by {
                if a < p {
                    assert(r@[a] == old_r[a]);
                } else if a == p {
                    assert(*r@[a] == v@[j as int]);
                } else {
                    assert(r@[a] == old_r[a - 1]);
                }
            }
            assert forall|k: int| #![trigger v@[k]] 0 <= k < j + 1 implies exists|a: int| 0 <= a < r@.len() && #[trigger] r@[a].command@ == v@[k].command@ by {
                if k == j {
                    assert(r@[p as int].command@ == v@[k].command@);
                } else {
                    let a = choose|a: int| 0 <= a < old_r.len() && old_r[a].command@ == v@[k].command@;
                    if a < p {
                        assert(r@[a] == old_r[a]);
                    } else {
                        assert(r@[a + 1] == old_r[a]);
                    }
                }
            }
        }
        j = j + 1;
    }
    proof {
        let rv = ref_views(r@);
        let m = table(v@);
        assert forall|a: int| 0 <= a < rv.len() implies m.contains_key(rv[a].command) && m[rv[a].command] == rv[a] by {
            let k = choose|k: int| 0 <= k < v@.len() && *r@[a] == v@[k];
            lemma_index_map_at(v@, entry_key(), entry_val(), k);
        }
        assert forall|key: Seq<char>| m.contains_key(key) implies exists|a: int| 0 <= a < rv.len() && rv[a].command == key by {
            let k = choose|k: int| 0 <= k < v@.len() && entry_key()(v@[k]) == key;
            let a = choose|a: int| 0 <= a < r@.len() && r@[a].command@ == v@[k].command@;
            assert(rv[a].command == key);
        }
    }
    r
}

/// The shell-escape risk of a command, as a static string.
fn escape_risk_of(c: &str) -> (r: Option<&'static str>)
    ensures
        match r {
            Some(s) => escape_risk(c@) == Some(s@),
            None => escape_risk(c@) is None,
        },
{
    if str_eq(c, "vi") { Some("Can spawn :!bash \u{2014} use 'view' (read-only) instead") }
    else if str_eq(c, "vim") { Some("Can spawn :!bash \u{2014} use 'view' (read-only) instead") }
    else if str_eq(c, "less") { Some("Can spawn !cmd \u{2014} set LESSSECURE=1 or exclude") }
    else if str_eq(c, "more") { Some("Can spawn !cmd \u{2014} set LESSSECURE=1 or exclude") }
    else if str_eq(c, "man") { Some("Uses less/more pager \u{2014} same escape risk") }
    else if str_eq(c, "python") { Some("Arbitrary code execution") }
    else if str_eq(c, "python3") { Some("Arbitrary code execution") }
    else if str_eq(c, "perl") { Some("Arbitrary code execution") }
    else if str_eq(c, "ruby") { Some("Arbitrary code execution") }
    else if str_eq(c, "lua") { Some("Arbitrary code execution") }
    else if str_eq(c, "node") { Some("Arbitrary code execution") }
    else if str_eq(c, "bash") { Some("Unrestricted shell") }
    else if str_eq(c, "sh") { Some("Unrestricted shell") }
    else if str_eq(c, "zsh") { Some("Unrestricted shell") }
    else if str_eq(c, "find") { Some("-exec flag enables arbitrary execution") }
    else if str_eq(c, "xargs") { Some("Can execute arbitrary commands") }
    else if str_eq(c, "awk") { Some("system() function enables execution") }
    else if str_eq(c, "nawk") { Some("system() function enables execution") }
    else if str_eq(c, "gawk") { Some("system() function enables execution") }
    else { None }
}

/// The normalized form of a path argument (see [`normalize_path`]).
fn normalize_exec(arg: &Vec<char>) -> (r: Vec<char>)
    ensures
        r@ == normalize_path(arg@),
{
    let parts = split_on(arg, '/');
    let mut st: Vec<Vec<char>> = Vec::new();
    let mut i: usize = 0;
    while i < parts.len()
        invariant
            i <= parts@.len(),
            vviews(parts@) == split_char(arg@, '/'),
            vviews(st@) == norm_components(vviews(parts@).take(i as int)),
        decreases parts.len() - i,
    {
        let part = &parts[i];
        let ghost before = vviews(st@);
        proof {
            let t = vviews(parts@).take(i + 1);
            assert(t.drop_last() =~= vviews(parts@).take(i as int));
            assert(t.last() == part@);
        }
        if part.len() == 2 && part[0] == '.' && part[1] == '.' {
            proof {
                assert(part@ =~= seq!['.', '.']);
            }
            if st.len() > 0 {
                st.pop();
                proof {
                    assert(vviews(st@) =~= before.drop_last());
                }
            }
        } else if (part.len() == 1 && part[0] == '.') || part.len() == 0 {
            proof {
                if part.len() == 1 {
                    assert(part@ =~= seq!['.']);
                }
                assert(part@ != seq!['.', '.']);
            }
        } else {
            proof {
                if part@ == seq!['.', '.'] {
                    assert(part@[0] == '.' && part@[1] == '.');
                }
                if part@ == seq!['.'] {
                    assert(part@[0] == '.');
                }
            }
            let kept = copy_range(part, 0, part.len());
            proof {
                assert(kept@ =~= part@);
            }
            st.push(kept);
            proof {
                assert(vviews(st@) =~= before.push(part@));
            }
        }
        i = i + 1;
    }
    proof {
        assert(vviews(parts@).take(parts@.len() as int) =~= vviews(parts@));
    }
    let mut out: Vec<char> = Vec::new();
    out.push('/');
    let mut sep: Vec<char> = Vec::new();
    sep.push('/');
    let joined = join_chars(&st, &sep);
    push_chars(&mut out, &joined);
    proof {
        assert(sep@ =~= seq!['/']);
        assert(out@ =~= seq!['/'] + joined@);
    }
    out
}

/// The blocked paths, in order.
fn blocked_list() -> (v: Vec<&'static str>)
    ensures
        str_views(v@) == blocked_paths(),
{
    let mut v: Vec<&'static str> = Vec::new();
    v.push("/etc/shadow");
    v.push("/etc/gshadow");
    v.push("/etc/master.passwd");
    v.push("/root/");
    v.push("/.ssh/");
    v.push("/etc/ssl/private/");
    v.push("/etc/pact/ca/");
    v.push("/run/pact/ca/");
    proof {
        assert(str_views(v@) =~= blocked_paths());
    }
    v
}

/// The sensitive prefixes, in order.
fn prefix_list() -> (v: Vec<&'static str>)
    ensures
        str_views(v@) == sensitive_prefixes(),
{
    let mut v: Vec<&'static str> = Vec::new();
    v.push("/etc/shadow");
    v.push("/etc/gshadow");
    v.push("/root");
    proof {
        assert(str_views(v@) =~= sensitive_prefixes());
    }
    v
}

/// Whether a normalized path hits a blocked path.
fn hits_blocked_exec(n: &Vec<char>) -> (r: bool)
    ensures
        r == hits_blocked(n@),
{
    let list = blocked_list();
    let mut i: usize = 0;
    while i < list.len()
        invariant
            i <= list@.len(),
            str_views(list@) == blocked_paths(),
            forall|k: int| 0 <= k < i ==> !(n@ == blocked_paths()[k] || starts_with(n@, blocked_paths()[k])
                || has_sub(n@, blocked_paths()[k])),
        decreases list.len() - i,
    {
        let b = chars_of(list[i]);
        proof {
            assert(b@ == blocked_paths()[i as int]);
        }
        if chars_eq(n, &b) || starts_with_exec(n, &b) || contains_exec(n, &b) {
            return true;
        }
        i = i + 1;
    }
    false
}

/// Whether a normalized path starts with a sensitive prefix.
fn hits_prefix_exec(n: &Vec<char>) -> (r: bool)
    ensures
        r == hits_prefix(n@),
{
    let list = prefix_list();
    let mut i: usize = 0;
    while i < list.len()
        invariant
            i <= list@.len(),
            str_views(list@) == sensitive_prefixes(),
            forall|k: int| 0 <= k < i ==> !starts_with(n@, sensitive_prefixes()[k]),
        decreases list.len() - i,
    {
        let b = chars_of(list[i]);
        proof {
            assert(b@ == sensitive_prefixes()[i as int]);
        }
        if starts_with_exec(n, &b) {
            return true;
        }
        i = i + 1;
    }
    false
}

/// Whether a command reads files.
fn is_file_reader_exec(c: &str) -> (r: bool)
    ensures
        r == is_file_reader(c@),
{
    str_eq(c, "cat") || str_eq(c, "head") || str_eq(c, "tail") || str_eq(c, "grep")
        || str_eq(c, "less") || str_eq(c, "diff") || str_eq(c, "wc") || str_eq(c, "file")
        || str_eq(c, "md5sum") || str_eq(c, "sha256sum") || str_eq(c, "stat")
}

/// The refusal message for an argument.
fn denial_message(command: &str, verb: &str, arg: &String) -> (r: String)
    ensures
        r@ == "access denied: "@ + command@ + verb@ + arg@ + " (sensitive path)"@,
{
    let mut out: Vec<char> = Vec::new();
    push_str(&mut out, "access denied: ");
    push_str(&mut out, command);
    push_str(&mut out, verb);
    push_chars(&mut out, &chars_of(arg.as_str()));
    push_str(&mut out, " (sensitive path)");
    string_of(&out)
}

/// The refusal of one argument (see [`arg_denial`]).
fn arg_denial_exec(command: &str, arg: &String) -> (r: Option<String>)
    ensures
        match r {
            Some(m) => arg_denial(command@, arg@) == Some(m@),
            None => arg_denial(command@, arg@) is None,
        },
{
    let a = chars_of(arg.as_str());
    let mut dots: Vec<char> = Vec::new();
    dots.push('.');
    dots.push('.');
    proof {
        assert(dots@ =~= seq!['.', '.']);
    }
    let absolute = a.len() > 0 && a[0] == '/';
    if !absolute && !contains_exec(&a, &dots) {
        return None;
    }
    let n = normalize_exec(&a);
    if hits_blocked_exec(&n) {
        return Some(denial_message(command, " cannot access ", arg));
    }
    if is_file_reader_exec(command) && hits_prefix_exec(&n) {
        return Some(denial_message(command, " cannot read ", arg));
    }
    None
}

/// Whether a command of a table has no binary resolved yet.
pub open spec fn unresolved(m: Map<Seq<char>, WhitelistEntryView>, c: Seq<char>) -> bool {
    m.contains_key(c) && m[c].binary_path is None
}

/// The table with the binary of `cmd` recorded, when it has the command
/// and no binary for it yet.
pub open spec fn with_binary(
    m: Map<Seq<char>, WhitelistEntryView>,
    cmd: Seq<char>,
    path: Seq<char>,
) -> Map<Seq<char>, WhitelistEntryView> {
    if unresolved(m, cmd) {
        m.insert(
            cmd,
            WhitelistEntryView {
                command: m[cmd].command,
                state_changing: m[cmd].state_changing,
                description: m[cmd].description,
                binary_path: Some(path),
            },
        )
    } else {
        m
    }
}

/// Records a binary for `cmd` in a table, when it has none yet.
fn set_path_in(v: &mut Vec<WhitelistEntry>, cmd: &str, path: &String)
    requires
        keys_unique(old(v)@, entry_key()),
    ensures
        keys_unique(final(v)@, entry_key()),
        table(final(v)@) == with_binary(table(old(v)@), cmd@, path@),
{
    match find_entry(v, cmd) {
        Some(i) => {
            proof {
                lemma_index_map_at(v@, entry_key(), entry_val(), i as int);
            }
            if v[i].binary_path.is_none() {
                let mut e = v[i].clone();
                e.binary_path = Some(path.clone());
                proof {
                    assert(entry_key()(e) == entry_key()(v@[i as int]));
                    lemma_index_map_update(v@, entry_key(), entry_val(), i as int, e);
                    assert(entry_val()(e) == WhitelistEntryView {
                        command: table(v@)[cmd@].command,
                        state_changing: table(v@)[cmd@].state_changing,
                        description: table(v@)[cmd@].description,
                        binary_path: Some(path@),
                    });
                }
                v.set(i, e);
            }
        },
        None => {},
    }
}

/// Whether one of the first `n` entries is `c` without a binary.
pub open spec fn unresolved_before(v: Seq<WhitelistEntry>, n: int, c: Seq<char>) -> bool {
    exists|k: int| 0 <= k < n && #[trigger] v[k].command@ == c && v[k].binary_path is None
}

/// Appends the commands of a table that have no binary yet.
fn push_unresolved(out: &mut Vec<String>, v: &Vec<WhitelistEntry>)
    requires
        keys_unique(v@, entry_key()),
    ensures
        forall|c: Seq<char>| #[trigger] views(final(out)@).contains(c) <==> (views(old(out)@).contains(c) || unresolved(
            table(v@),
            c,
        )),
{
    let ghost start = views(out@);
    let mut i: usize = 0;
    while i < v.len()
        invariant
            i <= v@.len(),
            keys_unique(v@, entry_key()),
            forall|c: Seq<char>| #[trigger] views(out@).contains(c) <==> (start.contains(c) || unresolved_before(v@, i as int, c)),
        decreases v.len() - i,
    {
        let ghost before = views(out@);
        if v[i].binary_path.is_none() {
            out.push(v[i].command.clone());
            proof {
                assert(views(out@) =~= before.push(v@[i as int].command@));
            }
        } else {
            proof {
                assert(views(out@) =~= before);
            }
        }
        proof {
            assert forall|c: Seq<char>| #[trigger] views(out@).contains(c) <==> (start.contains(c) || unresolved_before(v@, i + 1, c)) by {
                if views(out@).contains(c) {
                    if !before.contains(c) {
                        assert(v@[i as int].command@ == c && v@[i as int].binary_path is None);
                        assert(unresolved_before(v@, i + 1, c));
                    }
                }
                if unresolved_before(v@, i + 1, c) {
                    let k = choose|k: int| 0 <= k < i + 1 && #[trigger] v@[k].command@ == c && v@[k].binary_path is None;
                    if k == i {
                        assert(views(out@)[views(out@).len() - 1] == c);
                    } else {
                        assert(unresolved_before(v@, i as int, c));
                        assert(before.contains(c));
                    }
                }
                if before.contains(c) {
                    let j = choose|j: int| 0 <= j < before.len() && before[j] == c;
                    assert(views(out@)[j] == c);
                }
                if start.contains(c) {
                    assert(before.contains(c));
                }
                if unresolved_before(v@, i as int, c) {
                    assert(before.contains(c));
                    let k = choose|k: int| 0 <= k < i && #[trigger] v@[k].command@ == c && v@[k].binary_path is None;
                    assert(v@[k].command@ == c);
                }
            }
        }
        i = i + 1;
    }
    proof {
        assert forall|c: Seq<char>| unresolved_before(v@, v@.len() as int, c) <==> unresolved(table(v@), c) by {
            if unresolved_before(v@, v@.len() as int, c) {
                let k = choose|k: int| 0 <= k < v@.len() && #[trigger] v@[k].command@ == c && v@[k].binary_path is None;
                lemma_index_map_at(v@, entry_key(), entry_val(), k);
            }
            if unresolved(table(v@), c) {
                let k = choose|k: int| 0 <= k < v@.len() && entry_key()(v@[k]) == c;
                lemma_index_map_at(v@, entry_key(), entry_val(), k);
                assert(v@[k].command@ == c);
            }
        }
    }
}

/// The first candidate found to exist, given whether each exists.
pub fn first_found(exists: &[bool]) -> (r: Option<usize>)
    ensures
        match r {
            Some(i) => i < exists@.len() && exists@[i as int] && forall|j: int| 0 <= j < i ==> !exists@[j],
            None => forall|j: int| 0 <= j < exists@.len() ==> !exists@[j],
        },
{
    let mut i: usize = 0;
    while i < exists.len()
        invariant
            i <= exists@.len(),
            forall|j: int| 0 <= j < i ==> !exists@[j],
        decreases exists.len() - i,
    {
        if exists[i] {
            return Some(i);
        }
        i = i + 1;
    }
    None
}

/// Where a command may be found along a `PATH` value: in each of its
/// directories, in order.
pub open spec fn search_candidates(path_var: Seq<char>, command: Seq<char>) -> Seq<Seq<char>> {
    split_char(path_var, ':').map_values(|d: Seq<char>| path_join(d, command))
}

/// The paths to try for a command, in order.
pub fn candidate_paths(path_var: &str, command: &str) -> (r: Vec<String>)
    ensures
        views(r@) == search_candidates(path_var@, command@),
{
    let dirs = split_on(&chars_of(path_var), ':');
    let mut r: Vec<String> = Vec::new();
    let mut i: usize = 0;
    while i < dirs.len()
        invariant
            i <= dirs@.len(),
            vviews(dirs@) == split_char(path_var@, ':'),
            views(r@) == vviews(dirs@).take(i as int).map_values(|d: Seq<char>| path_join(d, command@)),
        decreases dirs.len() - i,
    {
        let ghost before = views(r@);
        let d = string_of(&dirs[i]);
        r.push(join_path(d.as_str(), command));
        proof {
            assert(views(r@) =~= before.push(path_join(dirs@[i as int]@, command@)));
            assert(vviews(dirs@).take(i + 1).map_values(|d: Seq<char>| path_join(d, command@)) =~= vviews(dirs@).take(
                i as int,
            ).map_values(|d: Seq<char>| path_join(d, command@)).push(path_join(dirs@[i as int]@, command@)));
        }
        i = i + 1;
    }
    proof {
        assert(vviews(dirs@).take(dirs@.len() as int) =~= vviews(dirs@));
    }
    r
}

impl WhitelistManager {
    /// The exec whitelist, by command name.
    pub closed spec fn exec_map(self) -> Map<Seq<char>, WhitelistEntryView> {
        table(self.exec_whitelist@)
    }

    /// The shell whitelist, by command name.
    pub closed spec fn shell_map(self) -> Map<Seq<char>, WhitelistEntryView> {
        table(self.shell_whitelist@)
    }

    /// The commands recorded as denied, in order of first denial.
    pub closed spec fn denied(self) -> Seq<Seq<char>> {
        views(self.denied_commands@)
    }

    /// Whether denied commands are recorded.
    pub closed spec fn learning(self) -> bool {
        self.learning_mode
    }

    /// One entry per command in each table; no command recorded twice.
    pub closed spec fn wf(self) -> bool {
        &&& keys_unique(self.exec_whitelist@, entry_key())
        &&& keys_unique(self.shell_whitelist@, entry_key())
        &&& self.denied().no_duplicates()
    }

    /// A manager with the default whitelist for both exec and shell.
    pub fn new(learning_mode: bool) -> (r: Self)
        ensures
            r.wf(),
            r.exec_map() == default_whitelist(),
            r.shell_map() == default_whitelist(),
            r.denied() == Seq::<Seq<char>>::empty(),
            r.learning() == learning_mode,
    {
        let mut mgr = WhitelistManager {
            exec_whitelist: Vec::new(),
            shell_whitelist: Vec::new(),
            learning_mode,
            denied_commands: Vec::new(),
        };
        proof {
            lemma_index_map_empty(mgr.exec_whitelist@, entry_key(), entry_val());
            lemma_index_map_empty(mgr.shell_whitelist@, entry_key(), entry_val());
            assert(mgr.denied() =~= Seq::<Seq<char>>::empty());
        }
        mgr.load_defaults();
        mgr
    }

    /// Adds a built-in entry to both tables.
    fn add_default(&mut self, cmd: &str, state_changing: bool, desc: &str)
        requires
            old(self).wf(),
        ensures
            final(self).wf(),
            final(self).exec_map() == old(self).exec_map().insert(cmd@, builtin(cmd@, state_changing, desc@)),
            final(self).shell_map() == old(self).shell_map().insert(cmd@, builtin(cmd@, state_changing, desc@)),
            final(self).denied() == old(self).denied(),
            final(self).learning() == old(self).learning(),
    {
        let entry = WhitelistEntry {
            command: string_from(cmd),
            state_changing,
            description: string_from(desc),
            binary_path: None,
        };
        let copy = entry.clone();
        upsert(&mut self.exec_whitelist, copy);
        upsert(&mut self.shell_whitelist, entry);
    }

    /// Loads the default whitelist into empty tables.
    #[verifier::rlimit(40)]
    fn load_defaults(&mut self)
        requires
            old(self).wf(),
            old(self).exec_map() == Map::<Seq<char>, WhitelistEntryView>::empty(),
            old(self).shell_map() == Map::<Seq<char>, WhitelistEntryView>::empty(),
        ensures
            final(self).wf(),
            final(self).exec_map() == default_whitelist(),
            final(self).shell_map() == default_whitelist(),
            final(self).denied() == old(self).denied(),
            final(self).learning() == old(self).learning(),
    {
        // GPU diagnostics
        self.add_default("nvidia-smi", false, "NVIDIA GPU status and diagnostics");
        self.add_default("rocm-smi", false, "AMD GPU status and diagnostics");
        // System info (read-only)
        self.add_default("echo", false, "Print arguments");
        self.add_default("dmesg", false, "Kernel ring buffer");
        self.add_default("lspci", false, "PCI device listing");
        self.add_default("lsmod", false, "Loaded kernel modules");
        self.add_default("lsblk", false, "Block device listing");
        self.add_default("lscpu", false, "CPU information");
        self.add_default("uname", false, "System information");
        self.add_default("hostname", false, "Show hostname");
        self.add_default("uptime", false, "System uptime");
        self.add_default("free", false, "Memory usage");
        self.add_default("df", false, "Disk usage");
        self.add_default("mount", true, "Mount operations (can mount filesystems)");
        // Process and resource monitoring
        self.add_default("ps", false, "Process listing");
        self.add_default("top", false, "Process monitor");
        self.add_default("htop", false, "Interactive process monitor");
        // Network diagnostics (ip can modify state with subcommands like 'link set')
        self.add_default("ip", true, "Network configuration");
        self.add_default("ss", false, "Socket statistics");
        self.add_default("ping", false, "Network connectivity test");
        self.add_default("traceroute", false, "Network path tracing");
        self.add_default("ethtool", false, "Network interface details");
        // File inspection (read-only)
        self.add_default("cat", false, "Display file contents");
        self.add_default("head", false, "Display first lines");
        self.add_default("tail", false, "Display last lines");
        self.add_default("wc", false, "Word/line count");
        self.add_default("ls", false, "List directory contents");
        self.add_default("stat", false, "File status");
        self.add_default("file", false, "File type identification");
        self.add_default("md5sum", false, "Compute MD5 checksum");
        self.add_default("sha256sum", false, "Compute SHA-256 checksum");
        self.add_default("diff", false, "Compare files");
        self.add_default("grep", false, "Search file contents");
        // Logs
        self.add_default("journalctl", false, "Systemd journal viewer");
        // Kernel tuning (sysctl -w can modify kernel parameters)
        self.add_default("sysctl", true, "Kernel parameter query/set");
        // State-changing commands
        self.add_default("systemctl", true, "Service management");
        self.add_default("modprobe", true, "Load kernel module");
        self.add_default("umount", true, "Unmount filesystem");
    }

    /// Whether a command is whitelisted for exec.
    pub fn is_exec_allowed(&self, command: &str) -> (r: bool)
        ensures
            r == self.exec_map().contains_key(command@),
    {
        find_entry(&self.exec_whitelist, command).is_some()
    }

    /// Whether a command is state-changing (false for unknown commands).
    pub fn is_state_changing(&self, command: &str) -> (r: bool)
        requires
            self.wf(),
        ensures
            r == (self.exec_map().contains_key(command@)
                && self.exec_map()[command@].state_changing),
    {
        match find_entry(&self.exec_whitelist, command) {
            Some(i) => {
                proof {
                    lemma_index_map_at(self.exec_whitelist@, entry_key(), entry_val(), i as int);
                }
                self.exec_whitelist[i].state_changing
            },
            None => false,
        }
    }

    /// Whether a command is whitelisted for shell.
    pub fn is_shell_allowed(&self, command: &str) -> (r: bool)
        ensures
            r == self.shell_map().contains_key(command@),
    {
        find_entry(&self.shell_whitelist, command).is_some()
    }

    /// Records a denied command, in learning mode and only once.
    pub fn record_denied(&mut self, command: &str)
        requires
            old(self).wf(),
        ensures
            final(self).wf(),
            final(self).denied() == after_denial(old(self).denied(), old(self).learning(), command@),
            final(self).exec_map() == old(self).exec_map(),
            final(self).shell_map() == old(self).shell_map(),
            final(self).learning() == old(self).learning(),
    {
        if self.learning_mode && !contains_string(&self.denied_commands, command) {
            let ghost before = self.denied();
            self.denied_commands.push(string_from(command));
            proof {
                assert(self.denied() =~= before.push(command@));
                assert forall|i: int, j: int|
                    0 <= i < self.denied().len() && 0 <= j < self.denied().len() && i != j
                    implies self.denied()[i] != self.denied()[j] by {
                    if i < before.len() && j < before.len() {
                    } else if i < before.len() {
                        assert(before.contains(before[i]));
                    } else {
                        assert(before.contains(before[j]));
                    }
                }
            }
        }
    }

    /// The denied commands, for admin review.
    pub fn denied_commands(&self) -> (r: &[String])
        ensures
            views(r@) == self.denied(),
    {
        self.denied_commands.as_slice()
    }

    /// Forgets the denied commands (after admin review).
    pub fn clear_denied(&mut self)
        requires
            old(self).wf(),
        ensures
            final(self).wf(),
            final(self).denied() == Seq::<Seq<char>>::empty(),
            final(self).exec_map() == old(self).exec_map(),
            final(self).shell_map() == old(self).shell_map(),
            final(self).learning() == old(self).learning(),
    {
        self.denied_commands.clear();
        proof {
            assert(self.denied() =~= Seq::<Seq<char>>::empty());
        }
    }
    /// Adds the commands of a vCluster policy to the exec whitelist; those
    /// already present keep their entry.
    pub fn update_exec_whitelist(&mut self, commands: &[String])
        requires
            old(self).wf(),
        ensures
            final(self).wf(),
            final(self).exec_map() == with_policy(old(self).exec_map(), views(commands@)),
            final(self).shell_map() == old(self).shell_map(),
            final(self).denied() == old(self).denied(),
            final(self).learning() == old(self).learning(),
    {
        add_policy(&mut self.exec_whitelist, commands);
    }

    /// Adds the commands of a vCluster policy to the shell whitelist; those
    /// already present keep their entry.
    pub fn update_shell_whitelist(&mut self, commands: &[String])
        requires
            old(self).wf(),
        ensures
            final(self).wf(),
            final(self).shell_map() == with_policy(old(self).shell_map(), views(commands@)),
            final(self).exec_map() == old(self).exec_map(),
            final(self).denied() == old(self).denied(),
            final(self).learning() == old(self).learning(),
    {
        add_policy(&mut self.shell_whitelist, commands);
    }

    /// The commands, of either table, whose binary is not resolved yet.
    pub fn unresolved_commands(&self) -> (r: Vec<String>)
        requires
            self.wf(),
        ensures
            forall|c: Seq<char>| views(r@).contains(c) <==> (unresolved(self.exec_map(), c) || unresolved(
                self.shell_map(),
                c,
            )),
    {
        let mut r: Vec<String> = Vec::new();
        proof {
            assert(views(r@) =~= Seq::<Seq<char>>::empty());
        }
        push_unresolved(&mut r, &self.exec_whitelist);
        push_unresolved(&mut r, &self.shell_whitelist);
        r
    }

    /// Records where the binary of a command was found, in each table
    /// where the command has none yet.
    pub fn set_binary_path(&mut self, command: &str, path: String)
        requires
            old(self).wf(),
        ensures
            final(self).wf(),
            final(self).exec_map() == with_binary(old(self).exec_map(), command@, path@),
            final(self).shell_map() == with_binary(old(self).shell_map(), command@, path@),
            final(self).denied() == old(self).denied(),
            final(self).learning() == old(self).learning(),
    {
        set_path_in(&mut self.exec_whitelist, command, &path);
        set_path_in(&mut self.shell_whitelist, command, &path);
    }

    /// All exec-whitelisted commands, sorted by name.
    pub fn exec_commands(&self) -> (r: Vec<&WhitelistEntry>)
        requires
            self.wf(),
        ensures
            sorted_listing(ref_views(r@), self.exec_map()),
    {
        sorted_entries(&self.exec_whitelist)
    }

    /// All shell-whitelisted commands, sorted by name.
    pub fn shell_commands(&self) -> (r: Vec<&WhitelistEntry>)
        requires
            self.wf(),
        ensures
            sorted_listing(ref_views(r@), self.shell_map()),
    {
        sorted_entries(&self.shell_whitelist)
    }

    /// The shell command names (for link creation), each once.
    pub fn shell_command_names(&self) -> (r: Vec<&str>)
        requires
            self.wf(),
        ensures
            str_views(r@).no_duplicates(),
            forall|k: Seq<char>| str_views(r@).contains(k) <==> self.shell_map().contains_key(k),
    {
        let mut r: Vec<&str> = Vec::new();
        let mut i: usize = 0;
        while i < self.shell_whitelist.len()
            invariant
                i <= self.shell_whitelist@.len(),
                keys_unique(self.shell_whitelist@, entry_key()),
                str_views(r@) == self.shell_whitelist@.take(i as int).map_values(|e: WhitelistEntry| e.command@),
            decreases self.shell_whitelist.len() - i,
        {
            r.push(self.shell_whitelist[i].command.as_str());
            proof {
                assert(self.shell_whitelist@.take(i + 1).map_values(|e: WhitelistEntry| e.command@)
                    =~= self.shell_whitelist@.take(i as int).map_values(|e: WhitelistEntry| e.command@)
                        .push(self.shell_whitelist@[i as int].command@));
                assert(str_views(r@) =~= str_views(r@.drop_last()).push(r@.last()@));
            }
            i = i + 1;
        }
        proof {
            let w = self.shell_whitelist@;
            assert(w.take(w.len() as int) =~= w);
            let names = str_views(r@);
            assert forall|a: int, b: int| 0 <= a < names.len() && 0 <= b < names.len() && a != b
                implies names[a] != names[b] by {
                assert(names[a] == entry_key()(w[a]));
                assert(names[b] == entry_key()(w[b]));
            }
            assert forall|k: Seq<char>| names.contains(k) <==> self.shell_map().contains_key(k) by {
                if names.contains(k) {
                    let a = choose|a: int| 0 <= a < names.len() && names[a] == k;
                    assert(entry_key()(w[a]) == k);
                }
                if self.shell_map().contains_key(k) {
                    let a = choose|a: int| 0 <= a < w.len() && entry_key()(w[a]) == k;
                    assert(names[a] == k);
                }
            }
        }
        r
    }

    /// The commands of `commands` with known shell-escape vectors, each with
    /// the reason, in order; to be reviewed before whitelisting.
    pub fn audit_escape_vectors(commands: &[&str]) -> (r: Vec<(String, String)>)
        ensures
            pair_views(r@) == audit(str_views(commands@)),
    {
        let mut r: Vec<(String, String)> = Vec::new();
        let mut i: usize = 0;
        while i < commands.len()
            invariant
                i <= commands@.len(),
                pair_views(r@) == audit(str_views(commands@).take(i as int)),
            decreases commands.len() - i,
        {
            let c = commands[i];
            proof {
                let t = str_views(commands@).take(i + 1);
                assert(t.drop_last() =~= str_views(commands@).take(i as int));
                assert(t.last() == c@);
            }
            match escape_risk_of(c) {
                Some(reason) => {
                    let ghost before = r@;
                    r.push((string_from(c), string_from(reason)));
                    proof {
                        assert(pair_views(r@) =~= pair_views(before).push((c@, reason@)));
                    }
                },
                None => {},
            }
            i = i + 1;
        }
        proof {
            assert(str_views(commands@).take(commands@.len() as int) =~= str_views(commands@));
        }
        r
    }
    /// Checks the arguments of a command for sensitive paths.
    ///
    /// Arguments that are absolute or contain `..` are normalized; one that
    /// hits a blocked path, or a sensitive prefix for a file-reading
    /// command, refuses the whole command with a message naming it.
    pub fn validate_args(command: &str, args: &[String]) -> (r: Result<(), String>)
        ensures
            r is Ok <==> first_denial(command@, views(args@)) is None,
            r matches Err(m) ==> first_denial(command@, views(args@)) == Some(m@),
    {
        let mut i: usize = 0;
        proof {
            assert(views(args@).skip(0) =~= views(args@));
        }
        while i < args.len()
            invariant
                i <= args@.len(),
                first_denial(command@, views(args@)) == first_denial(command@, views(args@).skip(i as int)),
            decreases args.len() - i,
        {
            let ghost rest = views(args@).skip(i as int);
            proof {
                assert(rest[0] == args@[i as int]@);
                assert(rest.drop_first() =~= views(args@).skip(i + 1));
            }
            match arg_denial_exec(command, &args[i]) {
                Some(m) => {
                    return Err(m);
                },
                None => {},
            }
            i = i + 1;
        }
        Ok(())
    }
}

/// Adding policy commands keeps every existing entry as it was, makes every
/// policy command present, and adds nothing else than policy entries for
/// commands that were missing.
pub proof fn law_policy_keeps_existing(m: Map<Seq<char>, WhitelistEntryView>, cmds: Seq<Seq<char>>)
    ensures
        forall|k: Seq<char>| m.contains_key(k) ==> #[trigger] with_policy(m, cmds).contains_key(k)
            && with_policy(m, cmds)[k] == m[k],
        forall|i: int| 0 <= i < cmds.len() ==> with_policy(m, cmds).contains_key(#[trigger] cmds[i]),
        forall|k: Seq<char>| #[trigger] with_policy(m, cmds).contains_key(k) && !m.contains_key(k)
            ==> cmds.contains(k) && with_policy(m, cmds)[k] == policy_entry(k),
    decreases cmds.len(),
{
    if cmds.len() > 0 {
        let pre = cmds.drop_last();
        law_policy_keeps_existing(m, pre);
        assert forall|k: Seq<char>| m.contains_key(k) implies #[trigger] with_policy(m, cmds).contains_key(k)
            && with_policy(m, cmds)[k] == m[k] by {
            assert(with_policy(m, pre).contains_key(k));
        }
        assert forall|i: int| 0 <= i < cmds.len() implies with_policy(m, cmds).contains_key(#[trigger] cmds[i]) by {
            if i < cmds.len() - 1 {
                assert(pre[i] == cmds[i]);
            }
        }
        assert forall|k: Seq<char>| #[trigger] with_policy(m, cmds).contains_key(k) && !m.contains_key(k)
            implies cmds.contains(k) && with_policy(m, cmds)[k] == policy_entry(k) by {
            if with_policy(m, pre).contains_key(k) {
                let i = choose|i: int| 0 <= i < pre.len() && pre[i] == k;
                assert(cmds[i] == k);
            } else {
                assert(cmds[cmds.len() - 1] == k);
            }
        }
    }
}

/// Recording the same denial twice records it once.
pub proof fn law_denial_idempotent(denied: Seq<Seq<char>>, learning: bool, c: Seq<char>)
    ensures
        after_denial(after_denial(denied, learning, c), learning, c) == after_denial(denied, learning, c),
        learning ==> after_denial(denied, learning, c).contains(c),
        !learning ==> after_denial(denied, learning, c) == denied,
{
    if learning && !denied.contains(c) {
        assert(denied.push(c)[denied.len() as int] == c);
    }
}


/// No command of the default whitelist is a known shell escape vector.
pub proof fn law_defaults_hold_no_escape_vector(c: Seq<char>)
    requires
        default_whitelist().dom().contains(c),
    ensures
        escape_risk(c) is None,
{
    reveal_strlit("vi");
    assert("vi"@.len() == 2 && "vi"@[0] == 'v' && "vi"@[1] == 'i');
    reveal_strlit("vim");
    assert("vim"@.len() == 3 && "vim"@[0] == 'v' && "vim"@[1] == 'i' && "vim"@[2] == 'm');
    reveal_strlit("less");
    assert("less"@.len() == 4 && "less"@[0] == 'l' && "less"@[1] == 'e' && "less"@[2] == 's' && "less"@[3] == 's');
    reveal_strlit("more");
    assert("more"@.len() == 4 && "more"@[0] == 'm' && "more"@[1] == 'o' && "more"@[2] == 'r' && "more"@[3] == 'e');
    reveal_strlit("man");
    assert("man"@.len() == 3 && "man"@[0] == 'm' && "man"@[1] == 'a' && "man"@[2] == 'n');
    reveal_strlit("python");
    assert("python"@.len() == 6 && "python"@[0] == 'p' && "python"@[1] == 'y' && "python"@[2] == 't' && "python"@[3] == 'h' && "python"@[4] == 'o' && "python"@[5] == 'n');
    reveal_strlit("python3");
    assert("python3"@.len() == 7 && "python3"@[0] == 'p' && "python3"@[1] == 'y' && "python3"@[2] == 't' && "python3"@[3] == 'h' && "python3"@[4] == 'o' && "python3"@[5] == 'n' && "python3"@[6] == '3');
    reveal_strlit("perl");
    assert("perl"@.len() == 4 && "perl"@[0] == 'p' && "perl"@[1] == 'e' && "perl"@[2] == 'r' && "perl"@[3] == 'l');
    reveal_strlit("ruby");
    assert("ruby"@.len() == 4 && "ruby"@[0] == 'r' && "ruby"@[1] == 'u' && "ruby"@[2] == 'b' && "ruby"@[3] == 'y');
    reveal_strlit("lua");
    assert("lua"@.len() == 3 && "lua"@[0] == 'l' && "lua"@[1] == 'u' && "lua"@[2] == 'a');
    reveal_strlit("node");
    assert("node"@.len() == 4 && "node"@[0] == 'n' && "node"@[1] == 'o' && "node"@[2] == 'd' && "node"@[3] == 'e');
    reveal_strlit("bash");
    assert("bash"@.len() == 4 && "bash"@[0] == 'b' && "bash"@[1] == 'a' && "bash"@[2] == 's' && "bash"@[3] == 'h');
    reveal_strlit("sh");
    assert("sh"@.len() == 2 && "sh"@[0] == 's' && "sh"@[1] == 'h');
    reveal_strlit("zsh");
    assert("zsh"@.len() == 3 && "zsh"@[0] == 'z' && "zsh"@[1] == 's' && "zsh"@[2] == 'h');
    reveal_strlit("find");
    assert("find"@.len() == 4 && "find"@[0] == 'f' && "find"@[1] == 'i' && "find"@[2] == 'n' && "find"@[3] == 'd');
    reveal_strlit("xargs");
    assert("xargs"@.len() == 5 && "xargs"@[0] == 'x' && "xargs"@[1] == 'a' && "xargs"@[2] == 'r' && "xargs"@[3] == 'g' && "xargs"@[4] == 's');
    reveal_strlit("awk");
    assert("awk"@.len() == 3 && "awk"@[0] == 'a' && "awk"@[1] == 'w' && "awk"@[2] == 'k');
    reveal_strlit("nawk");
    assert("nawk"@.len() == 4 && "nawk"@[0] == 'n' && "nawk"@[1] == 'a' && "nawk"@[2] == 'w' && "nawk"@[3] == 'k');
    reveal_strlit("gawk");
    assert("gawk"@.len() == 4 && "gawk"@[0] == 'g' && "gawk"@[1] == 'a' && "gawk"@[2] == 'w' && "gawk"@[3] == 'k');
    reveal_strlit("nvidia-smi");
    assert("nvidia-smi"@.len() == 10 && "nvidia-smi"@[0] == 'n' && "nvidia-smi"@[1] == 'v' && "nvidia-smi"@[2] == 'i' && "nvidia-smi"@[3] == 'd' && "nvidia-smi"@[4] == 'i' && "nvidia-smi"@[5] == 'a' && "nvidia-smi"@[6] == '-' && "nvidia-smi"@[7] == 's' && "nvidia-smi"@[8] == 'm' && "nvidia-smi"@[9] == 'i');
    assert(escape_risk("nvidia-smi"@) is None);
    reveal_strlit("rocm-smi");
    assert("rocm-smi"@.len() == 8 && "rocm-smi"@[0] == 'r' && "rocm-smi"@[1] == 'o' && "rocm-smi"@[2] == 'c' && "rocm-smi"@[3] == 'm' && "rocm-smi"@[4] == '-' && "rocm-smi"@[5] == 's' && "rocm-smi"@[6] == 'm' && "rocm-smi"@[7] == 'i');
    assert(escape_risk("rocm-smi"@) is None);
    reveal_strlit("echo");
    assert("echo"@.len() == 4 && "echo"@[0] == 'e' && "echo"@[1] == 'c' && "echo"@[2] == 'h' && "echo"@[3] == 'o');
    assert(escape_risk("echo"@) is None);
    reveal_strlit("dmesg");
    assert("dmesg"@.len() == 5 && "dmesg"@[0] == 'd' && "dmesg"@[1] == 'm' && "dmesg"@[2] == 'e' && "dmesg"@[3] == 's' && "dmesg"@[4] == 'g');
    assert(escape_risk("dmesg"@) is None);
    reveal_strlit("lspci");
    assert("lspci"@.len() == 5 && "lspci"@[0] == 'l' && "lspci"@[1] == 's' && "lspci"@[2] == 'p' && "lspci"@[3] == 'c' && "lspci"@[4] == 'i');
    assert(escape_risk("lspci"@) is None);
    reveal_strlit("lsmod");
    assert("lsmod"@.len() == 5 && "lsmod"@[0] == 'l' && "lsmod"@[1] == 's' && "lsmod"@[2] == 'm' && "lsmod"@[3] == 'o' && "lsmod"@[4] == 'd');
    assert(escape_risk("lsmod"@) is None);
    reveal_strlit("lsblk");
    assert("lsblk"@.len() == 5 && "lsblk"@[0] == 'l' && "lsblk"@[1] == 's' && "lsblk"@[2] == 'b' && "lsblk"@[3] == 'l' && "lsblk"@[4] == 'k');
    assert(escape_risk("lsblk"@) is None);
    reveal_strlit("lscpu");
    assert("lscpu"@.len() == 5 && "lscpu"@[0] == 'l' && "lscpu"@[1] == 's' && "lscpu"@[2] == 'c' && "lscpu"@[3] == 'p' && "lscpu"@[4] == 'u');
    assert(escape_risk("lscpu"@) is None);
    reveal_strlit("uname");
    assert("uname"@.len() == 5 && "uname"@[0] == 'u' && "uname"@[1] == 'n' && "uname"@[2] == 'a' && "uname"@[3] == 'm' && "uname"@[4] == 'e');
    assert(escape_risk("uname"@) is None);
    reveal_strlit("hostname");
    assert("hostname"@.len() == 8 && "hostname"@[0] == 'h' && "hostname"@[1] == 'o' && "hostname"@[2] == 's' && "hostname"@[3] == 't' && "hostname"@[4] == 'n' && "hostname"@[5] == 'a' && "hostname"@[6] == 'm' && "hostname"@[7] == 'e');
    assert(escape_risk("hostname"@) is None);
    reveal_strlit("uptime");
    assert("uptime"@.len() == 6 && "uptime"@[0] == 'u' && "uptime"@[1] == 'p' && "uptime"@[2] == 't' && "uptime"@[3] == 'i' && "uptime"@[4] == 'm' && "uptime"@[5] == 'e');
    assert(escape_risk("uptime"@) is None);
    reveal_strlit("free");
    assert("free"@.len() == 4 && "free"@[0] == 'f' && "free"@[1] == 'r' && "free"@[2] == 'e' && "free"@[3] == 'e');
    assert(escape_risk("free"@) is None);
    reveal_strlit("df");
    assert("df"@.len() == 2 && "df"@[0] == 'd' && "df"@[1] == 'f');
    assert(escape_risk("df"@) is None);
    reveal_strlit("mount");
    assert("mount"@.len() == 5 && "mount"@[0] == 'm' && "mount"@[1] == 'o' && "mount"@[2] == 'u' && "mount"@[3] == 'n' && "mount"@[4] == 't');
    assert(escape_risk("mount"@) is None);
    reveal_strlit("ps");
    assert("ps"@.len() == 2 && "ps"@[0] == 'p' && "ps"@[1] == 's');
    assert(escape_risk("ps"@) is None);
    reveal_strlit("top");
    assert("top"@.len() == 3 && "top"@[0] == 't' && "top"@[1] == 'o' && "top"@[2] == 'p');
    assert(escape_risk("top"@) is None);
    reveal_strlit("htop");
    assert("htop"@.len() == 4 && "htop"@[0] == 'h' && "htop"@[1] == 't' && "htop"@[2] == 'o' && "htop"@[3] == 'p');
    assert(escape_risk("htop"@) is None);
    reveal_strlit("ip");
    assert("ip"@.len() == 2 && "ip"@[0] == 'i' && "ip"@[1] == 'p');
    assert(escape_risk("ip"@) is None);
    reveal_strlit("ss");
    assert("ss"@.len() == 2 && "ss"@[0] == 's' && "ss"@[1] == 's');
    assert(escape_risk("ss"@) is None);
    reveal_strlit("ping");
    assert("ping"@.len() == 4 && "ping"@[0] == 'p' && "ping"@[1] == 'i' && "ping"@[2] == 'n' && "ping"@[3] == 'g');
    assert(escape_risk("ping"@) is None);
    reveal_strlit("traceroute");
    assert("traceroute"@.len() == 10 && "traceroute"@[0] == 't' && "traceroute"@[1] == 'r' && "traceroute"@[2] == 'a' && "traceroute"@[3] == 'c' && "traceroute"@[4] == 'e' && "traceroute"@[5] == 'r' && "traceroute"@[6] == 'o' && "traceroute"@[7] == 'u' && "traceroute"@[8] == 't' && "traceroute"@[9] == 'e');
    assert(escape_risk("traceroute"@) is None);
    reveal_strlit("ethtool");
    assert("ethtool"@.len() == 7 && "ethtool"@[0] == 'e' && "ethtool"@[1] == 't' && "ethtool"@[2] == 'h' && "ethtool"@[3] == 't' && "ethtool"@[4] == 'o' && "ethtool"@[5] == 'o' && "ethtool"@[6] == 'l');
    assert(escape_risk("ethtool"@) is None);
    reveal_strlit("cat");
    assert("cat"@.len() == 3 && "cat"@[0] == 'c' && "cat"@[1] == 'a' && "cat"@[2] == 't');
    assert(escape_risk("cat"@) is None);
    reveal_strlit("head");
    assert("head"@.len() == 4 && "head"@[0] == 'h' && "head"@[1] == 'e' && "head"@[2] == 'a' && "head"@[3] == 'd');
    assert(escape_risk("head"@) is None);
    reveal_strlit("tail");
    assert("tail"@.len() == 4 && "tail"@[0] == 't' && "tail"@[1] == 'a' && "tail"@[2] == 'i' && "tail"@[3] == 'l');
    assert(escape_risk("tail"@) is None);
    reveal_strlit("wc");
    assert("wc"@.len() == 2 && "wc"@[0] == 'w' && "wc"@[1] == 'c');
    assert(escape_risk("wc"@) is None);
    reveal_strlit("ls");
    assert("ls"@.len() == 2 && "ls"@[0] == 'l' && "ls"@[1] == 's');
    assert(escape_risk("ls"@) is None);
    reveal_strlit("stat");
    assert("stat"@.len() == 4 && "stat"@[0] == 's' && "stat"@[1] == 't' && "stat"@[2] == 'a' && "stat"@[3] == 't');
    assert(escape_risk("stat"@) is None);
    reveal_strlit("file");
    assert("file"@.len() == 4 && "file"@[0] == 'f' && "file"@[1] == 'i' && "file"@[2] == 'l' && "file"@[3] == 'e');
    assert(escape_risk("file"@) is None);
    reveal_strlit("md5sum");
    assert("md5sum"@.len() == 6 && "md5sum"@[0] == 'm' && "md5sum"@[1] == 'd' && "md5sum"@[2] == '5' && "md5sum"@[3] == 's' && "md5sum"@[4] == 'u' && "md5sum"@[5] == 'm');
    assert(escape_risk("md5sum"@) is None);
    reveal_strlit("sha256sum");
    assert("sha256sum"@.len() == 9 && "sha256sum"@[0] == 's' && "sha256sum"@[1] == 'h' && "sha256sum"@[2] == 'a' && "sha256sum"@[3] == '2' && "sha256sum"@[4] == '5' && "sha256sum"@[5] == '6' && "sha256sum"@[6] == 's' && "sha256sum"@[7] == 'u' && "sha256sum"@[8] == 'm');
    assert(escape_risk("sha256sum"@) is None);
    reveal_strlit("diff");
    assert("diff"@.len() == 4 && "diff"@[0] == 'd' && "diff"@[1] == 'i' && "diff"@[2] == 'f' && "diff"@[3] == 'f');
    assert(escape_risk("diff"@) is None);
    reveal_strlit("grep");
    assert("grep"@.len() == 4 && "grep"@[0] == 'g' && "grep"@[1] == 'r' && "grep"@[2] == 'e' && "grep"@[3] == 'p');
    assert(escape_risk("grep"@) is None);
    reveal_strlit("journalctl");
    assert("journalctl"@.len() == 10 && "journalctl"@[0] == 'j' && "journalctl"@[1] == 'o' && "journalctl"@[2] == 'u' && "journalctl"@[3] == 'r' && "journalctl"@[4] == 'n' && "journalctl"@[5] == 'a' && "journalctl"@[6] == 'l' && "journalctl"@[7] == 'c' && "journalctl"@[8] == 't' && "journalctl"@[9] == 'l');
    assert(escape_risk("journalctl"@) is None);
    reveal_strlit("sysctl");
    assert("sysctl"@.len() == 6 && "sysctl"@[0] == 's' && "sysctl"@[1] == 'y' && "sysctl"@[2] == 's' && "sysctl"@[3] == 'c' && "sysctl"@[4] == 't' && "sysctl"@[5] == 'l');
    assert(escape_risk("sysctl"@) is None);
    reveal_strlit("systemctl");
    assert("systemctl"@.len() == 9 && "systemctl"@[0] == 's' && "systemctl"@[1] == 'y' && "systemctl"@[2] == 's' && "systemctl"@[3] == 't' && "systemctl"@[4] == 'e' && "systemctl"@[5] == 'm' && "systemctl"@[6] == 'c' && "systemctl"@[7] == 't' && "systemctl"@[8] == 'l');
    assert(escape_risk("systemctl"@) is None);
    reveal_strlit("modprobe");
    assert("modprobe"@.len() == 8 && "modprobe"@[0] == 'm' && "modprobe"@[1] == 'o' && "modprobe"@[2] == 'd' && "modprobe"@[3] == 'p' && "modprobe"@[4] == 'r' && "modprobe"@[5] == 'o' && "modprobe"@[6] == 'b' && "modprobe"@[7] == 'e');
    assert(escape_risk("modprobe"@) is None);
    reveal_strlit("umount");
    assert("umount"@.len() == 6 && "umount"@[0] == 'u' && "umount"@[1] == 'm' && "umount"@[2] == 'o' && "umount"@[3] == 'u' && "umount"@[4] == 'n' && "umount"@[5] == 't');
    assert(escape_risk("umount"@) is None);
    assert(c == "nvidia-smi"@ || c == "rocm-smi"@ || c == "echo"@ || c == "dmesg"@ || c == "lspci"@ || c == "lsmod"@ || c == "lsblk"@ || c == "lscpu"@ || c == "uname"@ || c == "hostname"@ || c == "uptime"@ || c == "free"@ || c == "df"@ || c == "mount"@ || c == "ps"@ || c == "top"@ || c == "htop"@ || c == "ip"@ || c == "ss"@ || c == "ping"@ || c == "traceroute"@ || c == "ethtool"@ || c == "cat"@ || c == "head"@ || c == "tail"@ || c == "wc"@ || c == "ls"@ || c == "stat"@ || c == "file"@ || c == "md5sum"@ || c == "sha256sum"@ || c == "diff"@ || c == "grep"@ || c == "journalctl"@ || c == "sysctl"@ || c == "systemctl"@ || c == "modprobe"@ || c == "umount"@);
}


/// The default whitelist holds 38 commands.
#[verifier::rlimit(80)]
pub proof fn lemma_default_whitelist_size()
    ensures
        default_whitelist().dom().finite(),
        default_whitelist().dom().len() == 38,
{
    reveal_strlit("nvidia-smi");
    assert("nvidia-smi"@.len() == 10 && "nvidia-smi"@[0] == 'n' && "nvidia-smi"@[1] == 'v' && "nvidia-smi"@[2] == 'i' && "nvidia-smi"@[3] == 'd' && "nvidia-smi"@[4] == 'i' && "nvidia-smi"@[5] == 'a' && "nvidia-smi"@[6] == '-' && "nvidia-smi"@[7] == 's' && "nvidia-smi"@[8] == 'm' && "nvidia-smi"@[9] == 'i');
    reveal_strlit("rocm-smi");
    assert("rocm-smi"@.len() == 8 && "rocm-smi"@[0] == 'r' && "rocm-smi"@[1] == 'o' && "rocm-smi"@[2] == 'c' && "rocm-smi"@[3] == 'm' && "rocm-smi"@[4] == '-' && "rocm-smi"@[5] == 's' && "rocm-smi"@[6] == 'm' && "rocm-smi"@[7] == 'i');
    reveal_strlit("echo");
    assert("echo"@.len() == 4 && "echo"@[0] == 'e' && "echo"@[1] == 'c' && "echo"@[2] == 'h' && "echo"@[3] == 'o');
    reveal_strlit("dmesg");
    assert("dmesg"@.len() == 5 && "dmesg"@[0] == 'd' && "dmesg"@[1] == 'm' && "dmesg"@[2] == 'e' && "dmesg"@[3] == 's' && "dmesg"@[4] == 'g');
    reveal_strlit("lspci");
    assert("lspci"@.len() == 5 && "lspci"@[0] == 'l' && "lspci"@[1] == 's' && "lspci"@[2] == 'p' && "lspci"@[3] == 'c' && "lspci"@[4] == 'i');
    reveal_strlit("lsmod");
    assert("lsmod"@.len() == 5 && "lsmod"@[0] == 'l' && "lsmod"@[1] == 's' && "lsmod"@[2] == 'm' && "lsmod"@[3] == 'o' && "lsmod"@[4] == 'd');
    reveal_strlit("lsblk");
    assert("lsblk"@.len() == 5 && "lsblk"@[0] == 'l' && "lsblk"@[1] == 's' && "lsblk"@[2] == 'b' && "lsblk"@[3] == 'l' && "lsblk"@[4] == 'k');
    reveal_strlit("lscpu");
    assert("lscpu"@.len() == 5 && "lscpu"@[0] == 'l' && "lscpu"@[1] == 's' && "lscpu"@[2] == 'c' && "lscpu"@[3] == 'p' && "lscpu"@[4] == 'u');
    reveal_strlit("uname");
    assert("uname"@.len() == 5 && "uname"@[0] == 'u' && "uname"@[1] == 'n' && "uname"@[2] == 'a' && "uname"@[3] == 'm' && "uname"@[4] == 'e');
    reveal_strlit("hostname");
    assert("hostname"@.len() == 8 && "hostname"@[0] == 'h' && "hostname"@[1] == 'o' && "hostname"@[2] == 's' && "hostname"@[3] == 't' && "hostname"@[4] == 'n' && "hostname"@[5] == 'a' && "hostname"@[6] == 'm' && "hostname"@[7] == 'e');
    reveal_strlit("uptime");
    assert("uptime"@.len() == 6 && "uptime"@[0] == 'u' && "uptime"@[1] == 'p' && "uptime"@[2] == 't' && "uptime"@[3] == 'i' && "uptime"@[4] == 'm' && "uptime"@[5] == 'e');
    reveal_strlit("free");
    assert("free"@.len() == 4 && "free"@[0] == 'f' && "free"@[1] == 'r' && "free"@[2] == 'e' && "free"@[3] == 'e');
    reveal_strlit("df");
    assert("df"@.len() == 2 && "df"@[0] == 'd' && "df"@[1] == 'f');
    reveal_strlit("mount");
    assert("mount"@.len() == 5 && "mount"@[0] == 'm' && "mount"@[1] == 'o' && "mount"@[2] == 'u' && "mount"@[3] == 'n' && "mount"@[4] == 't');
    reveal_strlit("ps");
    assert("ps"@.len() == 2 && "ps"@[0] == 'p' && "ps"@[1] == 's');
    reveal_strlit("top");
    assert("top"@.len() == 3 && "top"@[0] == 't' && "top"@[1] == 'o' && "top"@[2] == 'p');
    reveal_strlit("htop");
    assert("htop"@.len() == 4 && "htop"@[0] == 'h' && "htop"@[1] == 't' && "htop"@[2] == 'o' && "htop"@[3] == 'p');
    reveal_strlit("ip");
    assert("ip"@.len() == 2 && "ip"@[0] == 'i' && "ip"@[1] == 'p');
    reveal_strlit("ss");
    assert("ss"@.len() == 2 && "ss"@[0] == 's' && "ss"@[1] == 's');
    reveal_strlit("ping");
    assert("ping"@.len() == 4 && "ping"@[0] == 'p' && "ping"@[1] == 'i' && "ping"@[2] == 'n' && "ping"@[3] == 'g');
    reveal_strlit("traceroute");
    assert("traceroute"@.len() == 10 && "traceroute"@[0] == 't' && "traceroute"@[1] == 'r' && "traceroute"@[2] == 'a' && "traceroute"@[3] == 'c' && "traceroute"@[4] == 'e' && "traceroute"@[5] == 'r' && "traceroute"@[6] == 'o' && "traceroute"@[7] == 'u' && "traceroute"@[8] == 't' && "traceroute"@[9] == 'e');
    reveal_strlit("ethtool");
    assert("ethtool"@.len() == 7 && "ethtool"@[0] == 'e' && "ethtool"@[1] == 't' && "ethtool"@[2] == 'h' && "ethtool"@[3] == 't' && "ethtool"@[4] == 'o' && "ethtool"@[5] == 'o' && "ethtool"@[6] == 'l');
    reveal_strlit("cat");
    assert("cat"@.len() == 3 && "cat"@[0] == 'c' && "cat"@[1] == 'a' && "cat"@[2] == 't');
    reveal_strlit("head");
    assert("head"@.len() == 4 && "head"@[0] == 'h' && "head"@[1] == 'e' && "head"@[2] == 'a' && "head"@[3] == 'd');
    reveal_strlit("tail");
    assert("tail"@.len() == 4 && "tail"@[0] == 't' && "tail"@[1] == 'a' && "tail"@[2] == 'i' && "tail"@[3] == 'l');
    reveal_strlit("wc");
    assert("wc"@.len() == 2 && "wc"@[0] == 'w' && "wc"@[1] == 'c');
    reveal_strlit("ls");
    assert("ls"@.len() == 2 && "ls"@[0] == 'l' && "ls"@[1] == 's');
    reveal_strlit("stat");
    assert("stat"@.len() == 4 && "stat"@[0] == 's' && "stat"@[1] == 't' && "stat"@[2] == 'a' && "stat"@[3] == 't');
    reveal_strlit("file");
    assert("file"@.len() == 4 && "file"@[0] == 'f' && "file"@[1] == 'i' && "file"@[2] == 'l' && "file"@[3] == 'e');
    reveal_strlit("md5sum");
    assert("md5sum"@.len() == 6 && "md5sum"@[0] == 'm' && "md5sum"@[1] == 'd' && "md5sum"@[2] == '5' && "md5sum"@[3] == 's' && "md5sum"@[4] == 'u' && "md5sum"@[5] == 'm');
    reveal_strlit("sha256sum");
    assert("sha256sum"@.len() == 9 && "sha256sum"@[0] == 's' && "sha256sum"@[1] == 'h' && "sha256sum"@[2] == 'a' && "sha256sum"@[3] == '2' && "sha256sum"@[4] == '5' && "sha256sum"@[5] == '6' && "sha256sum"@[6] == 's' && "sha256sum"@[7] == 'u' && "sha256sum"@[8] == 'm');
    reveal_strlit("diff");
    assert("diff"@.len() == 4 && "diff"@[0] == 'd' && "diff"@[1] == 'i' && "diff"@[2] == 'f' && "diff"@[3] == 'f');
    reveal_strlit("grep");
    assert("grep"@.len() == 4 && "grep"@[0] == 'g' && "grep"@[1] == 'r' && "grep"@[2] == 'e' && "grep"@[3] == 'p');
    reveal_strlit("journalctl");
    assert("journalctl"@.len() == 10 && "journalctl"@[0] == 'j' && "journalctl"@[1] == 'o' && "journalctl"@[2] == 'u' && "journalctl"@[3] == 'r' && "journalctl"@[4] == 'n' && "journalctl"@[5] == 'a' && "journalctl"@[6] == 'l' && "journalctl"@[7] == 'c' && "journalctl"@[8] == 't' && "journalctl"@[9] == 'l');
    reveal_strlit("sysctl");
    assert("sysctl"@.len() == 6 && "sysctl"@[0] == 's' && "sysctl"@[1] == 'y' && "sysctl"@[2] == 's' && "sysctl"@[3] == 'c' && "sysctl"@[4] == 't' && "sysctl"@[5] == 'l');
    reveal_strlit("systemctl");
    assert("systemctl"@.len() == 9 && "systemctl"@[0] == 's' && "systemctl"@[1] == 'y' && "systemctl"@[2] == 's' && "systemctl"@[3] == 't' && "systemctl"@[4] == 'e' && "systemctl"@[5] == 'm' && "systemctl"@[6] == 'c' && "systemctl"@[7] == 't' && "systemctl"@[8] == 'l');
    reveal_strlit("modprobe");
    assert("modprobe"@.len() == 8 && "modprobe"@[0] == 'm' && "modprobe"@[1] == 'o' && "modprobe"@[2] == 'd' && "modprobe"@[3] == 'p' && "modprobe"@[4] == 'r' && "modprobe"@[5] == 'o' && "modprobe"@[6] == 'b' && "modprobe"@[7] == 'e');
    reveal_strlit("umount");
    assert("umount"@.len() == 6 && "umount"@[0] == 'u' && "umount"@[1] == 'm' && "umount"@[2] == 'o' && "umount"@[3] == 'u' && "umount"@[4] == 'n' && "umount"@[5] == 't');
}


/// Auditing commands of the default whitelist finds nothing.
proof fn lemma_audit_defaults_empty(cmds: Seq<Seq<char>>)
    requires
        forall|i: int| 0 <= i < cmds.len() ==> default_whitelist().dom().contains(#[trigger] cmds[i]),
    ensures
        audit(cmds) == Seq::<(Seq<char>, Seq<char>)>::empty(),
    decreases cmds.len(),
{
    if cmds.len() > 0 {
        lemma_audit_defaults_empty(cmds.drop_last());
        law_defaults_hold_no_escape_vector(cmds.last());
    }
}

/// A manager as `new` makes it: the exec and shell whitelists allow the
/// same commands, the sorted listing holds the 38 default commands, and
/// auditing them finds no shell escape vector.
pub proof fn law_new_manager_defaults(m: WhitelistManager, listing: Seq<WhitelistEntryView>)
    requires
        m.exec_map() == default_whitelist(),
        m.shell_map() == default_whitelist(),
        sorted_listing(listing, m.exec_map()),
    ensures
        forall|c: Seq<char>| m.exec_map().contains_key(c) == m.shell_map().contains_key(c),
        listing.len() == 38,
        audit(listing.map_values(|e: WhitelistEntryView| e.command)) == Seq::<(Seq<char>, Seq<char>)>::empty(),
{
    let names = listing.map_values(|e: WhitelistEntryView| e.command);
    assert forall|i: int, j: int| 0 <= i < names.len() && 0 <= j < names.len() && i != j implies names[i] != names[j] by {
        if i < j {
            lemma_lex_asym(names[i], names[j]);
        } else {
            lemma_lex_asym(names[j], names[i]);
        }
    }
    assert(names.no_duplicates());
    assert(names.to_set() =~= default_whitelist().dom()) by {
        assert forall|k: Seq<char>| names.to_set().contains(k) <==> default_whitelist().dom().contains(k) by {
            if default_whitelist().dom().contains(k) {
                let i = choose|i: int| 0 <= i < listing.len() && listing[i].command == k;
                assert(names[i] == k);
            }
            if names.to_set().contains(k) {
                let i = choose|i: int| 0 <= i < names.len() && names[i] == k;
                assert(listing[i].command == k);
            }
        }
    }
    names.unique_seq_to_set();
    lemma_default_whitelist_size();
    assert forall|i: int| 0 <= i < names.len() implies default_whitelist().dom().contains(#[trigger] names[i]) by {
        assert(listing[i].command == names[i]);
    }
    lemma_audit_defaults_empty(names);
}

} // verus!
