//! Choosing and driving a native full-screen screenshot tool.
//!
//! The screen is grabbed up front by whatever screenshot tool the desktop
//! offers. This module holds the table of known tools, the lookup of a
//! binary on `PATH`, the command line for each tool, and the decision
//! procedure that walks the table: [`CaptureRun::step`] takes what the caller
//! observed (is the tool installed, did it run, could its output be decoded)
//! and answers with the next thing to do.

use vstd::prelude::*;

use crate::text::{
    chars_of, concat_str, decimal, join, joined, law_replace_whole, law_replace_without_occurrence,
    opt_view, owned, push_char,
    push_decimal, push_str, replace_all, replaced, str_eq, views,
};

verus! {

/// The operating systems whose screenshot tools differ.
#[derive(Clone, Copy, PartialEq, Eq, Structural, Debug)]
pub enum Platform {
    Linux,
    MacOs,
    Other,
}

/// A native screenshot tool that can grab the whole screen into a PNG file.
pub struct Backend {
    /// Binaries that must all exist on `PATH` for this backend to be usable.
    pub required: Vec<String>,
    /// The program to run.
    pub program: String,
    /// Its arguments; `@OUT@` stands for the output path.
    pub args: Vec<String>,
    /// A shell pipeline (run via `sh -c`); when set, program and args are ignored.
    pub shell: Option<String>,
}

/// What a [`Backend`] holds, as character sequences.
pub struct BackendView {
    pub required: Seq<Seq<char>>,
    pub program: Seq<char>,
    pub args: Seq<Seq<char>>,
    pub shell: Option<Seq<char>>,
}

impl View for Backend {
    type V = BackendView;

    open spec fn view(&self) -> BackendView {
        BackendView {
            required: views(self.required@),
            program: self.program@,
            args: views(self.args@),
            shell: opt_view(self.shell),
        }
    }
}

/// The views of a list of backends.
pub open spec fn backend_views(bs: Seq<Backend>) -> Seq<BackendView> {
    bs.map_values(|b: Backend| b@)
}

/// The placeholder for the output path in a backend's arguments.
pub open spec fn out_marker() -> Seq<char> {
    "@OUT@"@
}

/// A backend that runs the binary it required.
pub open spec fn tool_backend(name: Seq<char>, args: Seq<Seq<char>>) -> BackendView {
    BackendView { required: seq![name], program: name, args: args, shell: None }
}

pub open spec fn gnome_screenshot() -> BackendView {
    tool_backend("gnome-screenshot"@, seq!["-f"@, "@OUT@"@])
}

/// The backends tried, in order, to grab the entire screen to `@OUT@`.
///
/// On macOS this is `screencapture`. On Linux it is `maim`, `scrot`,
/// ImageMagick's `import` and `gnome-screenshot`, preceded in a Wayland
/// session by `grim`, `gnome-screenshot` and `spectacle`; in a Wayland session
/// `gnome-screenshot` thus appears twice. Other systems have no backend.
pub open spec fn backend_table(platform: Platform, wayland: bool) -> Seq<BackendView> {
    match platform {
        Platform::MacOs => seq![
            tool_backend("screencapture"@, seq!["-x"@, "-t"@, "png"@, "@OUT@"@]),
        ],
        Platform::Linux => {
            let wl = if wayland {
                seq![
                    tool_backend("grim"@, seq!["@OUT@"@]),
                    gnome_screenshot(),
                    tool_backend("spectacle"@, seq!["-b"@, "-n"@, "-f"@, "-o"@, "@OUT@"@]),
                ]
            } else {
                Seq::empty()
            };
            wl + seq![
                tool_backend("maim"@, seq!["@OUT@"@]),
                tool_backend("scrot"@, seq!["@OUT@"@]),
                tool_backend("import"@, seq!["-window"@, "root"@, "@OUT@"@]),
                gnome_screenshot(),
            ]
        },
        Platform::Other => Seq::empty(),
    }
}

/// Every backend of the table runs the one tool it requires, with no shell.
pub proof fn lemma_table_shape(platform: Platform, wayland: bool)
    ensures
        forall|i: int|
            0 <= i < backend_table(platform, wayland).len() ==> {
                let b = #[trigger] backend_table(platform, wayland)[i];
                &&& b.required.len() == 1
                &&& b.program == b.required[0]
                &&& b.shell is None
                &&& b.args.len() > 0
                &&& b.args.last() == out_marker()
            },
{
    let t = backend_table(platform, wayland);
    assert forall|i: int| 0 <= i < t.len() implies {
        let b = #[trigger] t[i];
        &&& b.required.len() == 1
        &&& b.program == b.required[0]
        &&& b.shell is None
        &&& b.args.len() > 0
        &&& b.args.last() == out_marker()
    } by {
        if platform == Platform::Linux && wayland {
            assert(t.len() == 7);
            if i == 0 {
            } else if i == 1 {
            } else if i == 2 {
            } else if i == 3 {
            } else if i == 4 {
            } else if i == 5 {
            } else {
            }
        } else if platform == Platform::Linux {
            assert(t.len() == 4);
            if i == 0 {
            } else if i == 1 {
            } else if i == 2 {
            } else {
            }
        } else {
        }
    }
}

/// Whether the desktop session is a Wayland one: `WAYLAND_DISPLAY` is set,
/// or `XDG_SESSION_TYPE` is `wayland`.
pub fn is_wayland(wayland_display_set: bool, session_type: Option<&str>) -> (r: bool)
    ensures
        r == (wayland_display_set || (session_type is Some && session_type->0@ == "wayland"@)),
{
    if wayland_display_set {
        return true;
    }
    match session_type {
        Some(t) => str_eq(t, "wayland"),
        None => false,
    }
}

fn words(items: &[&str]) -> (r: Vec<String>)
    ensures
        r@.len() == items@.len(),
        forall|i: int| 0 <= i < items@.len() ==> #[trigger] r@[i]@ == items@[i]@,
{
    let mut r: Vec<String> = Vec::new();
    let mut i: usize = 0;
    while i < items.len()
        invariant
            i <= items@.len(),
            r@.len() == i,
            forall|k: int| 0 <= k < i ==> #[trigger] r@[k]@ == items@[k]@,
        decreases items@.len() - i,
    {
        r.push(owned(items[i]));
        i = i + 1;
    }
    r
}

fn tool(name: &str, args: &[&str]) -> (b: Backend)
    ensures
        b@ == tool_backend(name@, args@.map_values(|a: &str| a@)),
{
    let required = words(&[name]);
    let args_v = words(args);
    let b = Backend { required, program: owned(name), args: args_v, shell: None };
    assert(views(b.required@) =~= seq![name@]);
    assert(views(b.args@) =~= args@.map_values(|a: &str| a@));
    b
}

/// The backends that grab the entire screen, in the order they are tried.
pub fn fullscreen_backends(platform: Platform, wayland: bool) -> (r: Vec<Backend>)
    ensures
        backend_views(r@) == backend_table(platform, wayland),
{
    let mut v: Vec<Backend> = Vec::new();
    let ghost mut expected: Seq<BackendView> = Seq::empty();
    match platform {
        Platform::MacOs => {
            let b = tool("screencapture", &["-x", "-t", "png", "@OUT@"]);
            assert(b@ == tool_backend("screencapture"@, seq!["-x"@, "-t"@, "png"@, "@OUT@"@])) by {
                assert(["-x", "-t", "png", "@OUT@"]@.map_values(|a: &str| a@) =~= seq![
                    "-x"@,
                    "-t"@,
                    "png"@,
                    "@OUT@"@,
                ]);
            }
            v.push(b);
            proof {
                expected = expected.push(b@);
            }
        },
        Platform::Linux => {
            if wayland {
                let b = tool("grim", &["@OUT@"]);
                assert(["@OUT@"]@.map_values(|a: &str| a@) =~= seq!["@OUT@"@]);
                v.push(b);
                proof {
                    expected = expected.push(b@);
                }
                let b = tool("gnome-screenshot", &["-f", "@OUT@"]);
                assert(["-f", "@OUT@"]@.map_values(|a: &str| a@) =~= seq!["-f"@, "@OUT@"@]);
                v.push(b);
                proof {
                    expected = expected.push(b@);
                }
                let b = tool("spectacle", &["-b", "-n", "-f", "-o", "@OUT@"]);
                assert(["-b", "-n", "-f", "-o", "@OUT@"]@.map_values(|a: &str| a@) =~= seq![
                    "-b"@,
                    "-n"@,
                    "-f"@,
                    "-o"@,
                    "@OUT@"@,
                ]);
                v.push(b);
                proof {
                    expected = expected.push(b@);
                }
            }
            let b = tool("maim", &["@OUT@"]);
            assert(["@OUT@"]@.map_values(|a: &str| a@) =~= seq!["@OUT@"@]);
            v.push(b);
            proof {
                expected = expected.push(b@);
            }
            let b = tool("scrot", &["@OUT@"]);
            assert(["@OUT@"]@.map_values(|a: &str| a@) =~= seq!["@OUT@"@]);
            v.push(b);
            proof {
                expected = expected.push(b@);
            }
            let b = tool("import", &["-window", "root", "@OUT@"]);
            assert(["-window", "root", "@OUT@"]@.map_values(|a: &str| a@) =~= seq![
                "-window"@,
                "root"@,
                "@OUT@"@,
            ]);
            v.push(b);
            proof {
                expected = expected.push(b@);
            }
            let b = tool("gnome-screenshot", &["-f", "@OUT@"]);
            assert(["-f", "@OUT@"]@.map_values(|a: &str| a@) =~= seq!["-f"@, "@OUT@"@]);
            v.push(b);
            proof {
                expected = expected.push(b@);
            }
        },
        Platform::Other => {},
    }
    assert(backend_views(v@) =~= expected);
    assert(expected =~= backend_table(platform, wayland));
    v
}

// ---------------------------------------------------------------------------
// PATH lookup
// ---------------------------------------------------------------------------

/// The entries of `p` split at `:`, the current entry being `cur`.
pub open spec fn split_acc(p: Seq<char>, cur: Seq<char>) -> Seq<Seq<char>>
    decreases p.len(),
{
    if p.len() == 0 {
        seq![cur]
    } else if p[0] == ':' {
        seq![cur] + split_acc(p.drop_first(), Seq::empty())
    } else {
        split_acc(p.drop_first(), cur.push(p[0]))
    }
}

/// The directories listed in a `PATH` value: the pieces between `:`, empty
/// ones included (std's `env::split_paths` on Unix).
pub open spec fn path_entries(p: Seq<char>) -> Seq<Seq<char>> {
    split_acc(p, Seq::empty())
}

proof fn lemma_joined_cons(x: Seq<char>, rest: Seq<Seq<char>>, sep: Seq<char>)
    requires
        rest.len() > 0,
    ensures
        joined(seq![x] + rest, sep) == x + sep + joined(rest, sep),
    decreases rest.len(),
{
    if rest.len() == 1 {
        assert((seq![x] + rest).drop_last() =~= seq![x]);
        assert((seq![x] + rest).last() == rest[0]);
        assert(joined(seq![x], sep) == x);
        assert(joined(rest, sep) == rest[0]);
        assert(joined(seq![x] + rest, sep) == joined(seq![x], sep) + sep + rest[0]);
    } else {
        lemma_joined_cons(x, rest.drop_last(), sep);
        assert((seq![x] + rest).drop_last() =~= seq![x] + rest.drop_last());
        assert((seq![x] + rest).last() == rest.last());
        assert(joined(seq![x] + rest, sep) == joined(seq![x] + rest.drop_last(), sep) + sep
            + rest.last());
        assert(joined(rest, sep) == joined(rest.drop_last(), sep) + sep + rest.last());
        assert(x + sep + joined(rest.drop_last(), sep) + sep + rest.last() =~= x + sep + (joined(
            rest.drop_last(),
            sep,
        ) + sep + rest.last()));
    }
}

proof fn lemma_split_acc_rejoins(p: Seq<char>, cur: Seq<char>)
    requires
        forall|k: int| 0 <= k < cur.len() ==> cur[k] != ':',
    ensures
        split_acc(p, cur).len() > 0,
        joined(split_acc(p, cur), seq![':']) == cur + p,
        forall|e: int, k: int|
            0 <= e < split_acc(p, cur).len() && 0 <= k < split_acc(p, cur)[e].len() ==> #[trigger] split_acc(
                p,
                cur,
            )[e][k] != ':',
    decreases p.len(),
{
    if p.len() == 0 {
        assert(cur + p =~= cur);
    } else if p[0] == ':' {
        let rest = split_acc(p.drop_first(), Seq::empty());
        lemma_split_acc_rejoins(p.drop_first(), Seq::empty());
        lemma_joined_cons(cur, rest, seq![':']);
        assert(Seq::<char>::empty() + p.drop_first() =~= p.drop_first());
        assert(cur + seq![':'] + p.drop_first() =~= cur + p);
        let all = seq![cur] + rest;
        assert forall|e: int, k: int| 0 <= e < all.len() && 0 <= k < all[e].len() implies all[e][k]
            != ':' by {
            if e > 0 {
                assert(all[e] == rest[e - 1]);
            }
        }
    } else {
        lemma_split_acc_rejoins(p.drop_first(), cur.push(p[0]));
        assert(cur.push(p[0]) + p.drop_first() =~= cur + p);
    }
}

/// Splitting a `PATH` value loses nothing: its entries contain no `:`, and
/// joined again with `:` they give back the value.
pub proof fn law_path_entries_rejoin(p: Seq<char>)
    ensures
        path_entries(p).len() > 0,
        joined(path_entries(p), seq![':']) == p,
        forall|e: int, k: int|
            0 <= e < path_entries(p).len() && 0 <= k < path_entries(p)[e].len() ==> #[trigger] path_entries(
                p,
            )[e][k] != ':',
{
    lemma_split_acc_rejoins(p, Seq::empty());
    assert(Seq::<char>::empty() + p =~= p);
}

/// `bin` joined onto `dir` as std's `Path::join` does on Unix: an absolute
/// `bin` replaces `dir`; a separator is added unless `dir` is empty or ends
/// with one.
pub open spec fn joined_path(dir: Seq<char>, bin: Seq<char>) -> Seq<char> {
    if bin.len() > 0 && bin[0] == '/' {
        bin
    } else if dir.len() == 0 || dir.last() == '/' {
        dir + bin
    } else {
        dir + seq!['/'] + bin
    }
}

/// The directories listed in a `PATH` value.
pub fn path_entries_of(path_var: &str) -> (r: Vec<String>)
    ensures
        views(r@) == path_entries(path_var@),
{
    let cs = chars_of(path_var);
    let n: usize = cs.len();
    let mut out: Vec<String> = Vec::new();
    let mut cur = String::new();
    let mut i: usize = 0;
    assert(cs@.skip(0) =~= cs@);
    while i < n
        invariant
            i <= n == cs@.len(),
            cs@ == path_var@,
            path_entries(path_var@) == views(out@) + split_acc(cs@.skip(i as int), cur@),
        decreases n - i,
    {
        let ghost rest = cs@.skip(i as int);
        assert(rest.drop_first() =~= cs@.skip(i + 1));
        assert(rest[0] == cs@[i as int]);
        if cs[i] == ':' {
            let done = cur;
            cur = String::new();
            let ghost before = out@;
            out.push(done);
            assert(views(out@) =~= views(before) + seq![done@]);
            assert(cur@ =~= Seq::<char>::empty());
        } else {
            push_char(&mut cur, cs[i]);
        }
        i = i + 1;
    }
    let ghost before = out@;
    assert(cs@.skip(n as int) =~= Seq::<char>::empty());
    out.push(cur);
    assert(views(out@) =~= views(before) + seq![out@.last()@]);
    out
}

/// `bin` joined onto the directory `dir`.
pub fn join_path(dir: &str, bin: &str) -> (r: String)
    ensures
        r@ == joined_path(dir@, bin@),
{
    let bs = chars_of(bin);
    if bs.len() > 0 && bs[0] == '/' {
        return owned(bin);
    }
    let ds = chars_of(dir);
    let mut r = owned(dir);
    if ds.len() > 0 && ds[ds.len() - 1] != '/' {
        push_char(&mut r, '/');
    }
    push_str(&mut r, bin);
    r
}

/// The paths at which `bin` would be found, one per entry of the `PATH`
/// value `path_var`, in order; none when `PATH` is unset. The binary is on
/// `PATH` when one of them is a file.
pub fn on_path_candidates(path_var: Option<&str>, bin: &str) -> (r: Vec<String>)
    ensures
        path_var is None ==> r@.len() == 0,
        path_var is Some ==> views(r@) == path_entries(path_var->0@).map_values(
            |d: Seq<char>| joined_path(d, bin@),
        ),
{
    match path_var {
        None => Vec::new(),
        Some(p) => {
            let dirs = path_entries_of(p);
            let mut r: Vec<String> = Vec::new();
            let mut i: usize = 0;
            while i < dirs.len()
                invariant
                    i <= dirs@.len(),
                    views(dirs@) == path_entries(p@),
                    views(r@) == views(dirs@).take(i as int).map_values(
                        |d: Seq<char>| joined_path(d, bin@),
                    ),
                decreases dirs@.len() - i,
            {
                let c = join_path(dirs[i].as_str(), bin);
                let ghost before = r@;
                r.push(c);
                assert(views(r@) =~= views(dirs@).take(i + 1).map_values(
                    |d: Seq<char>| joined_path(d, bin@),
                )) by {
                    assert(views(r@) =~= views(before).push(c@));
                }
                i = i + 1;
            }
            assert(views(dirs@).take(dirs@.len() as int) =~= views(dirs@));
            r
        },
    }
}

/// The file name under the temporary directory that a capture is written to.
pub open spec fn temp_capture_name_spec(pid: u32) -> Seq<char> {
    "linkshot-capture-"@ + decimal(pid as nat) + ".png"@
}

/// The file name under the temporary directory that a capture is written to.
pub fn temp_capture_name(pid: u32) -> (r: String)
    ensures
        r@ == temp_capture_name_spec(pid),
{
    let mut r = owned("linkshot-capture-");
    push_decimal(&mut r, pid as u64);
    push_str(&mut r, ".png");
    r
}

// ---------------------------------------------------------------------------
// Commands
// ---------------------------------------------------------------------------

/// A program and its arguments, ready to be spawned.
pub struct CaptureCommand {
    pub program: String,
    pub args: Vec<String>,
}

/// The program that runs `b`.
pub open spec fn command_program(b: BackendView) -> Seq<char> {
    match b.shell {
        Some(_) => "sh"@,
        None => b.program,
    }
}

/// The arguments that run `b` with its output written to `out`.
pub open spec fn command_args(b: BackendView, out: Seq<char>) -> Seq<Seq<char>> {
    match b.shell {
        Some(sh) => seq!["-c"@, replaced(sh, out_marker(), out)],
        None => b.args.map_values(|a: Seq<char>| replaced(a, out_marker(), out)),
    }
}

/// The command that runs `b` with its output written to `out`: the shell
/// pipeline through `sh -c` where there is one, else the program with
/// `@OUT@` replaced by `out` in each argument.
pub fn capture_command(b: &Backend, out: &str) -> (c: CaptureCommand)
    ensures
        c.program@ == command_program(b@),
        views(c.args@) == command_args(b@, out@),
{
    let marker = "@OUT@";
    proof {
        reveal_strlit("@OUT@");
    }
    match &b.shell {
        Some(sh) => {
            let args = vec![owned("-c"), replace_all(sh.as_str(), marker, out)];
            assert(views(args@) =~= seq!["-c"@, replaced(sh@, out_marker(), out@)]);
            CaptureCommand { program: owned("sh"), args }
        },
        None => {
            let mut args: Vec<String> = Vec::new();
            let mut i: usize = 0;
            while i < b.args.len()
                invariant
                    i <= b.args@.len(),
                    marker@ == out_marker(),
                    out_marker().len() > 0,
                    views(args@) == views(b.args@).take(i as int).map_values(
                        |a: Seq<char>| replaced(a, out_marker(), out@),
                    ),
                decreases b.args@.len() - i,
            {
                let a = replace_all(b.args[i].as_str(), marker, out);
                let ghost before = args@;
                args.push(a);
                assert(views(args@) =~= views(b.args@).take(i + 1).map_values(
                    |a: Seq<char>| replaced(a, out_marker(), out@),
                )) by {
                    assert(views(args@) =~= views(before).push(a@));
                }
                i = i + 1;
            }
            assert(views(b.args@).take(b.args@.len() as int) =~= views(b.args@));
            CaptureCommand { program: b.program.clone(), args }
        },
    }
}

/// An argument without `@` is passed on unchanged.
proof fn lemma_plain_arg(a: Seq<char>, out: Seq<char>)
    requires
        forall|k: int| 0 <= k < a.len() ==> a[k] != '@',
    ensures
        replaced(a, out_marker(), out) == a,
{
    reveal_strlit("@OUT@");
    assert forall|i: int| 0 <= i && i + out_marker().len() <= a.len() implies #[trigger] a.subrange(
        i,
        i + out_marker().len(),
    ) != out_marker() by {
        assert(a.subrange(i, i + out_marker().len())[0] == a[i]);
        assert(out_marker()[0] == '@');
    }
    law_replace_without_occurrence(a, out_marker(), out);
}

/// The command lines the table runs, writing to `out`: `maim`, `scrot` and
/// `grim` are given the output path alone; `import -window root` grabs the
/// root window; `gnome-screenshot -f` and `spectacle -b -n -f -o` write the
/// full screen to the file; `screencapture -x -t png` grabs it silently as PNG.
/// On Linux the Wayland tools `grim`, `gnome-screenshot`, `spectacle` come
/// first in a Wayland session, then `maim`, `scrot`, `import`,
/// `gnome-screenshot`; macOS has `screencapture` alone; other systems have none.
pub proof fn law_table_commands(wayland: bool, out: Seq<char>)
    ensures
        ({
            let t = backend_table(Platform::Linux, wayland);
            let o: int = if wayland { 3 } else { 0 };
            &&& t.len() == o + 4
            &&& t[o].program == "maim"@ && command_program(t[o]) == "maim"@
            &&& command_args(t[o], out) == seq![out]
            &&& t[o + 1].program == "scrot"@ && command_program(t[o + 1]) == "scrot"@
            &&& command_args(t[o + 1], out) == seq![out]
            &&& t[o + 2].program == "import"@ && command_program(t[o + 2]) == "import"@
            &&& command_args(t[o + 2], out) == seq!["-window"@, "root"@, out]
            &&& t[o + 3].program == "gnome-screenshot"@ && command_program(t[o + 3])
                == "gnome-screenshot"@
            &&& command_args(t[o + 3], out) == seq!["-f"@, out]
            &&& wayland ==> {
                &&& t[0].program == "grim"@ && command_program(t[0]) == "grim"@
                &&& command_args(t[0], out) == seq![out]
                &&& t[1].program == "gnome-screenshot"@ && command_program(t[1])
                    == "gnome-screenshot"@
                &&& command_args(t[1], out) == seq!["-f"@, out]
                &&& t[2].program == "spectacle"@ && command_program(t[2]) == "spectacle"@
                &&& command_args(t[2], out) == seq!["-b"@, "-n"@, "-f"@, "-o"@, out]
            }
        }),
        ({
            let t = backend_table(Platform::MacOs, wayland);
            &&& t.len() == 1
            &&& t[0].program == "screencapture"@ && command_program(t[0]) == "screencapture"@
            &&& command_args(t[0], out) == seq!["-x"@, "-t"@, "png"@, out]
        }),
        backend_table(Platform::Other, wayland).len() == 0,
{
    reveal_strlit("@OUT@");
    reveal_strlit("-window");
    reveal_strlit("root");
    reveal_strlit("-f");
    reveal_strlit("-b");
    reveal_strlit("-n");
    reveal_strlit("-o");
    reveal_strlit("-x");
    reveal_strlit("-t");
    reveal_strlit("png");
    law_replace_whole(out_marker(), out);
    lemma_plain_arg("-window"@, out);
    lemma_plain_arg("root"@, out);
    lemma_plain_arg("-f"@, out);
    lemma_plain_arg("-b"@, out);
    lemma_plain_arg("-n"@, out);
    lemma_plain_arg("-o"@, out);
    lemma_plain_arg("-x"@, out);
    lemma_plain_arg("-t"@, out);
    lemma_plain_arg("png"@, out);
    let t = backend_table(Platform::Linux, wayland);
    let o: int = if wayland { 3 } else { 0 };
    assert(command_args(t[o], out) =~= seq![out]);
    assert(command_args(t[o + 1], out) =~= seq![out]);
    assert(command_args(t[o + 2], out) =~= seq!["-window"@, "root"@, out]);
    assert(command_args(t[o + 3], out) =~= seq!["-f"@, out]);
    if wayland {
        assert(command_args(t[0], out) =~= seq![out]);
        assert(command_args(t[1], out) =~= seq!["-f"@, out]);
        assert(command_args(t[2], out) =~= seq!["-b"@, "-n"@, "-f"@, "-o"@, out]);
    }
    let m = backend_table(Platform::MacOs, wayland);
    assert(command_args(m[0], out) =~= seq!["-x"@, "-t"@, "png"@, out]);
}

/// Every tool of the table runs itself and writes the whole screen to the
/// output path, which it is given as its last argument.
pub proof fn law_table_writes_to_out(platform: Platform, wayland: bool, out: Seq<char>)
    ensures
        forall|i: int|
            0 <= i < backend_table(platform, wayland).len() ==> {
                let b = #[trigger] backend_table(platform, wayland)[i];
                &&& command_program(b) == b.required[0]
                &&& command_args(b, out).len() == b.args.len()
                &&& command_args(b, out).last() == out
            },
{
    lemma_table_shape(platform, wayland);
    reveal_strlit("@OUT@");
    law_replace_whole(out_marker(), out);
}

// ---------------------------------------------------------------------------
// Messages
// ---------------------------------------------------------------------------

/// The failure when no backend's tools are installed.
pub open spec fn no_tool_text() -> Seq<char> {
    "No screenshot tool found. Install one of: grim, gnome-screenshot, spectacle, maim, scrot, or ImageMagick (import)."@
}

/// The failure once every backend has been tried: which tools were tried,
/// or, when none was installed, which ones to install.
pub open spec fn capture_failure_text(tried: Seq<Seq<char>>) -> Seq<char> {
    if tried.len() == 0 {
        no_tool_text()
    } else {
        "Full-screen capture failed using: "@ + joined(tried, ", "@)
    }
}

/// The failure when a tool could not be launched.
pub open spec fn launch_error_text(tool: Seq<char>) -> Seq<char> {
    "failed to launch capture tool `"@ + tool + "`"@
}

/// The failure when the captured file could not be decoded.
pub open spec fn decode_error_text(out: Seq<char>) -> Seq<char> {
    "failed to decode capture from "@ + out
}

/// The failure once every backend has been tried.
pub fn capture_failure_message(tried: &Vec<String>) -> (r: String)
    ensures
        r@ == capture_failure_text(views(tried@)),
{
    if tried.len() == 0 {
        owned(
            "No screenshot tool found. Install one of: grim, gnome-screenshot, spectacle, maim, scrot, or ImageMagick (import).",
        )
    } else {
        let list = join(tried, ", ");
        concat_str("Full-screen capture failed using: ", list.as_str())
    }
}

/// The failure when `tool` could not be launched.
pub fn launch_error_message(tool: &str) -> (r: String)
    ensures
        r@ == launch_error_text(tool@),
{
    let mut r = owned("failed to launch capture tool `");
    push_str(&mut r, tool);
    push_str(&mut r, "`");
    r
}

/// The failure when the capture written to `out` could not be decoded.
pub fn decode_error_message(out: &str) -> (r: String)
    ensures
        r@ == decode_error_text(out@),
{
    concat_str("failed to decode capture from ", out)
}

// ---------------------------------------------------------------------------
// The capture procedure
// ---------------------------------------------------------------------------

/// Where a capture run stands.
#[derive(Clone, Copy, PartialEq, Eq, Structural, Debug)]
pub enum CapturePhase {
    /// Nothing has been done yet.
    Idle,
    /// Waiting to learn whether the tools of the backend at this index are installed.
    Checking(usize),
    /// Waiting for the backend at this index to finish.
    Running(usize),
    /// Waiting to learn whether the captured file could be decoded.
    Decoding,
    /// The run has ended.
    Finished,
}

/// What the caller observed since the last step.
#[derive(Clone, Copy, PartialEq, Eq, Structural, Debug)]
pub enum CaptureEvent {
    /// Start the run.
    Begin,
    /// Whether every tool the backend requires is on `PATH`.
    Availability(bool),
    /// The backend's program could not be launched.
    LaunchFailed,
    /// The backend's program ran to its end.
    Exited { success: bool, output_exists: bool },
    /// Whether the captured file could be decoded into an image.
    Decoded(bool),
}

/// What the caller is to do next.
pub enum CaptureAction {
    /// Find out whether each of these binaries is on `PATH`.
    CheckAvailable(Vec<String>),
    /// Run this command and wait for it.
    Run(CaptureCommand),
    /// Decode the output file into an image.
    Decode,
    /// The captured image is the result.
    Done,
    /// The capture failed with this message.
    Fail(String),
}

/// What a [`CaptureAction`] holds, as character sequences.
pub enum ActionView {
    CheckAvailable(Seq<Seq<char>>),
    Run(Seq<char>, Seq<Seq<char>>),
    Decode,
    Done,
    Fail(Seq<char>),
}

impl View for CaptureAction {
    type V = ActionView;

    open spec fn view(&self) -> ActionView {
        match self {
            CaptureAction::CheckAvailable(tools) => ActionView::CheckAvailable(views(tools@)),
            CaptureAction::Run(c) => ActionView::Run(c.program@, views(c.args@)),
            CaptureAction::Decode => ActionView::Decode,
            CaptureAction::Done => ActionView::Done,
            CaptureAction::Fail(m) => ActionView::Fail(m@),
        }
    }
}

/// Whether a run in `phase` expects `event` next.
pub open spec fn accepts(phase: CapturePhase, event: CaptureEvent) -> bool {
    match phase {
        CapturePhase::Idle => event is Begin,
        CapturePhase::Checking(_) => event is Availability,
        CapturePhase::Running(_) => event is LaunchFailed || event is Exited,
        CapturePhase::Decoding => event is Decoded,
        CapturePhase::Finished => false,
    }
}

/// Moving on to the backend at index `j`, or failing when there is none left.
pub open spec fn next_backend(bs: Seq<BackendView>, j: int, tried: Seq<Seq<char>>) -> (
    CapturePhase,
    ActionView,
) {
    if 0 <= j < bs.len() {
        (CapturePhase::Checking(j as usize), ActionView::CheckAvailable(bs[j].required))
    } else {
        (CapturePhase::Finished, ActionView::Fail(capture_failure_text(tried)))
    }
}

/// The next phase, the tools tried so far, and the action, after `event`.
///
/// Backends are tried in table order. One whose tools are not all installed
/// is skipped without being counted as tried; one that is installed is
/// counted by the first tool it requires and run. A launch failure ends the
/// run at once; a run that fails or leaves no output moves on to the next
/// backend; a successful one has its output decoded, and the decoding
/// decides the outcome.
pub open spec fn transition(
    bs: Seq<BackendView>,
    out: Seq<char>,
    phase: CapturePhase,
    tried: Seq<Seq<char>>,
    event: CaptureEvent,
) -> (CapturePhase, Seq<Seq<char>>, ActionView) {
    match phase {
        CapturePhase::Idle => {
            let (p, a) = next_backend(bs, 0, tried);
            (p, tried, a)
        },
        CapturePhase::Checking(i) => {
            if event == CaptureEvent::Availability(true) {
                (
                    CapturePhase::Running(i),
                    tried.push(bs[i as int].required[0]),
                    ActionView::Run(
                        command_program(bs[i as int]),
                        command_args(bs[i as int], out),
                    ),
                )
            } else {
                let (p, a) = next_backend(bs, i + 1, tried);
                (p, tried, a)
            }
        },
        CapturePhase::Running(i) => {
            match event {
                CaptureEvent::Exited { success, output_exists } => {
                    if success && output_exists {
                        (CapturePhase::Decoding, tried, ActionView::Decode)
                    } else {
                        let (p, a) = next_backend(bs, i + 1, tried);
                        (p, tried, a)
                    }
                },
                _ => (
                    CapturePhase::Finished,
                    tried,
                    ActionView::Fail(launch_error_text(bs[i as int].required[0])),
                ),
            }
        },
        _ => {
            if event == CaptureEvent::Decoded(true) {
                (CapturePhase::Finished, tried, ActionView::Done)
            } else {
                (CapturePhase::Finished, tried, ActionView::Fail(decode_error_text(out)))
            }
        },
    }
}

/// An upper bound on the steps left to a run in `phase` over `n` backends.
pub open spec fn steps_left(phase: CapturePhase, n: int) -> int {
    match phase {
        CapturePhase::Idle => 2 * n + 2,
        CapturePhase::Checking(i) => 2 * (n - i) + 1,
        CapturePhase::Running(i) => 2 * (n - i),
        CapturePhase::Decoding => 1,
        CapturePhase::Finished => 0,
    }
}

/// Whether the indices in `phase` name backends of a table of `n`.
pub open spec fn phase_in_range(phase: CapturePhase, n: int) -> bool {
    match phase {
        CapturePhase::Checking(i) => i < n,
        CapturePhase::Running(i) => i < n,
        _ => true,
    }
}

/// Every step brings a run closer to its end, so a run over `n` backends
/// ends after at most `2n + 2` steps, and it keeps its indices in the table.
pub proof fn law_run_ends(
    bs: Seq<BackendView>,
    out: Seq<char>,
    phase: CapturePhase,
    tried: Seq<Seq<char>>,
    event: CaptureEvent,
)
    requires
        accepts(phase, event),
        phase_in_range(phase, bs.len() as int),
        bs.len() <= usize::MAX,
    ensures
        ({
            let (next, _, _) = transition(bs, out, phase, tried, event);
            &&& 0 <= steps_left(next, bs.len() as int) < steps_left(phase, bs.len() as int)
            &&& phase_in_range(next, bs.len() as int)
        }),
{
}

/// A run succeeds only by decoding the output of a tool that ran and
/// succeeded; tools are counted as tried only when found installed and run,
/// by the first tool their backend requires; a run that fails after trying
/// every backend says which tools it tried.
pub proof fn law_run_outcomes(
    bs: Seq<BackendView>,
    out: Seq<char>,
    phase: CapturePhase,
    tried: Seq<Seq<char>>,
    event: CaptureEvent,
)
    requires
        accepts(phase, event),
        phase_in_range(phase, bs.len() as int),
        bs.len() <= usize::MAX,
    ensures
        ({
            let (next, tried2, action) = transition(bs, out, phase, tried, event);
            &&& action is Done ==> phase == CapturePhase::Decoding && event
                == CaptureEvent::Decoded(true)
            &&& next == CapturePhase::Decoding ==> (phase is Running && event
                == CaptureEvent::Exited { success: true, output_exists: true })
            &&& tried2 == tried || (phase matches CapturePhase::Checking(i) && event
                == CaptureEvent::Availability(true) && tried2 == tried.push(
                bs[i as int].required[0],
            ))
            &&& (next == CapturePhase::Finished && !(phase is Running) && !(phase is Decoding))
                ==> action == ActionView::Fail(capture_failure_text(tried2))
        }),
{
}

/// A backend found installed is the one that is run: while the run checks
/// backend `i`, a positive answer runs exactly backend `i`'s program with its
/// own arguments, the output path put in for `@OUT@`, and counts its first
/// tool as tried. For a backend without a shell pipeline that is its program
/// with as many arguments as it has, each its own with the path put in.
pub proof fn law_installed_backend_is_run(
    bs: Seq<BackendView>,
    out: Seq<char>,
    i: usize,
    tried: Seq<Seq<char>>,
)
    requires
        i < bs.len(),
    ensures
        ({
            let (next, tried2, action) = transition(
                bs,
                out,
                CapturePhase::Checking(i),
                tried,
                CaptureEvent::Availability(true),
            );
            &&& next == CapturePhase::Running(i)
            &&& tried2 == tried.push(bs[i as int].required[0])
            &&& action == ActionView::Run(
                command_program(bs[i as int]),
                command_args(bs[i as int], out),
            )
            &&& bs[i as int].shell is None ==> action == ActionView::Run(
                bs[i as int].program,
                bs[i as int].args.map_values(|a: Seq<char>| replaced(a, out_marker(), out)),
            )
        }),
{
}

/// A backend whose tools are not all installed, or whose run fails or leaves
/// no file, is passed over for the next one in the table, whose tools are
/// then checked; past the last one the run fails, naming the tools tried.
pub proof fn law_failed_backend_passed_over(
    bs: Seq<BackendView>,
    out: Seq<char>,
    i: usize,
    tried: Seq<Seq<char>>,
    success: bool,
    output_exists: bool,
)
    requires
        i < bs.len(),
        bs.len() <= usize::MAX,
    ensures
        ({
            let (next, tried2, action) = transition(
                bs,
                out,
                CapturePhase::Checking(i),
                tried,
                CaptureEvent::Availability(false),
            );
            &&& tried2 == tried
            &&& i + 1 < bs.len() ==> next == CapturePhase::Checking((i + 1) as usize) && action
                == ActionView::CheckAvailable(bs[i + 1].required)
            &&& i + 1 == bs.len() ==> next == CapturePhase::Finished && action == ActionView::Fail(
                capture_failure_text(tried),
            )
        }),
        !(success && output_exists) ==> ({
            let (next, tried2, action) = transition(
                bs,
                out,
                CapturePhase::Running(i),
                tried,
                CaptureEvent::Exited { success, output_exists },
            );
            &&& tried2 == tried
            &&& i + 1 < bs.len() ==> next == CapturePhase::Checking((i + 1) as usize) && action
                == ActionView::CheckAvailable(bs[i + 1].required)
            &&& i + 1 == bs.len() ==> next == CapturePhase::Finished && action == ActionView::Fail(
                capture_failure_text(tried),
            )
        }),
{
}

/// How a run starts and how it ends. It starts by checking the tools of the
/// first backend, or, with no backend at all, fails at once saying which
/// tools to install. A tool that cannot be launched ends the run with a
/// failure naming it. A tool that ran and left its file has that file
/// decoded: decoded, it is the result; not decoded, the run fails naming the
/// file. Once every backend has been passed over, the failure lists the tools
/// tried, in the order they were tried, separated by commas.
pub proof fn law_run_start_and_finish(
    bs: Seq<BackendView>,
    out: Seq<char>,
    i: usize,
    tried: Seq<Seq<char>>,
    a: Seq<char>,
    b: Seq<char>,
)
    requires
        i < bs.len(),
    ensures
        transition(bs, out, CapturePhase::Idle, tried, CaptureEvent::Begin) == (
            CapturePhase::Checking(0),
            tried,
            ActionView::CheckAvailable(bs[0].required),
        ),
        transition(
            Seq::<BackendView>::empty(),
            out,
            CapturePhase::Idle,
            Seq::<Seq<char>>::empty(),
            CaptureEvent::Begin,
        ) == (
            CapturePhase::Finished,
            Seq::<Seq<char>>::empty(),
            ActionView::Fail(
                "No screenshot tool found. Install one of: grim, gnome-screenshot, spectacle, maim, scrot, or ImageMagick (import)."@,
            ),
        ),
        transition(bs, out, CapturePhase::Running(i), tried, CaptureEvent::LaunchFailed) == (
            CapturePhase::Finished,
            tried,
            ActionView::Fail("failed to launch capture tool `"@ + bs[i as int].required[0] + "`"@),
        ),
        transition(
            bs,
            out,
            CapturePhase::Running(i),
            tried,
            CaptureEvent::Exited { success: true, output_exists: true },
        ) == (CapturePhase::Decoding, tried, ActionView::Decode),
        transition(bs, out, CapturePhase::Decoding, tried, CaptureEvent::Decoded(true)) == (
            CapturePhase::Finished,
            tried,
            ActionView::Done,
        ),
        transition(bs, out, CapturePhase::Decoding, tried, CaptureEvent::Decoded(false)) == (
            CapturePhase::Finished,
            tried,
            ActionView::Fail("failed to decode capture from "@ + out),
        ),
        capture_failure_text(seq![a]) == "Full-screen capture failed using: "@ + a,
        capture_failure_text(seq![a, b]) == "Full-screen capture failed using: "@ + a + ", "@ + b,
{
    let two = seq![a, b];
    assert(two.drop_last() =~= seq![a]);
    assert(joined(two, ", "@) == joined(seq![a], ", "@) + ", "@ + b);
    assert(("Full-screen capture failed using: "@ + a) + ", "@ + b =~= "Full-screen capture failed using: "@
        + (a + ", "@ + b));
}

/// One attempt to grab the whole screen into the file `out`.
pub struct CaptureRun {
    /// The backends, in the order they are tried.
    pub backends: Vec<Backend>,
    /// The path the capture is written to.
    pub out: String,
    /// Where the run stands.
    pub phase: CapturePhase,
    /// The first tool of each backend that was found installed and run.
    pub tried: Vec<String>,
}

impl CaptureRun {
    /// Every backend requires at least one tool, and the phase names one of them.
    pub open spec fn wf(&self) -> bool {
        &&& forall|i: int|
            0 <= i < self.backends@.len() ==> #[trigger] self.backends@[i].required@.len() > 0
        &&& match self.phase {
            CapturePhase::Checking(i) => i < self.backends@.len(),
            CapturePhase::Running(i) => i < self.backends@.len(),
            _ => true,
        }
    }

    /// A run over the backends of `platform` that writes to `out`.
    pub fn new(platform: Platform, wayland: bool, out: String) -> (r: CaptureRun)
        ensures
            r.wf(),
            backend_views(r.backends@) == backend_table(platform, wayland),
            r.out@ == out@,
            r.phase == CapturePhase::Idle,
            r.tried@.len() == 0,
    {
        let backends = fullscreen_backends(platform, wayland);
        let r = CaptureRun { backends, out, phase: CapturePhase::Idle, tried: Vec::new() };
        proof {
            lemma_table_shape(platform, wayland);
        }
        assert forall|i: int| 0 <= i < r.backends@.len() implies #[trigger] r.backends@[i].required@.len()
            > 0 by {
            assert(backend_views(r.backends@)[i] == r.backends@[i]@);
        }
        r
    }

    /// Whether the run has ended.
    pub fn finished(&self) -> (r: bool)
        ensures
            r == (self.phase == CapturePhase::Finished),
    {
        match self.phase {
            CapturePhase::Finished => true,
            _ => false,
        }
    }

    fn next_backend(&mut self, j: usize) -> (a: CaptureAction)
        requires
            old(self).wf(),
            j <= old(self).backends@.len(),
        ensures
            final(self).wf(),
            final(self).backends == old(self).backends,
            final(self).out == old(self).out,
            final(self).tried == old(self).tried,
            (final(self).phase, a@) == next_backend(
                backend_views(old(self).backends@),
                j as int,
                views(old(self).tried@),
            ),
    {
        if j < self.backends.len() {
            self.phase = CapturePhase::Checking(j);
            let tools = self.backends[j].required.clone();
            assert(backend_views(self.backends@)[j as int] == self.backends@[j as int]@);
            CaptureAction::CheckAvailable(tools)
        } else {
            self.phase = CapturePhase::Finished;
            CaptureAction::Fail(capture_failure_message(&self.tried))
        }
    }

    /// Takes what the caller observed and says what to do next.
    pub fn step(&mut self, event: CaptureEvent) -> (a: CaptureAction)
        requires
            old(self).wf(),
            accepts(old(self).phase, event),
        ensures
            final(self).wf(),
            final(self).backends == old(self).backends,
            final(self).out == old(self).out,
            (final(self).phase, views(final(self).tried@), a@) == transition(
                backend_views(old(self).backends@),
                old(self).out@,
                old(self).phase,
                views(old(self).tried@),
                event,
            ),
    {
        let ghost bs = backend_views(self.backends@);
        proof {
            assert(self.backends.len() == self.backends@.len());
        }
        match self.phase {
            CapturePhase::Idle => self.next_backend(0),
            CapturePhase::Checking(i) => {
                if event == CaptureEvent::Availability(true) {
                    assert(bs[i as int] == self.backends@[i as int]@);
                    let first = self.backends[i].required[0].clone();
                    let ghost before = self.tried@;
                    self.tried.push(first);
                    assert(views(self.tried@) =~= views(before).push(first@));
                    self.phase = CapturePhase::Running(i);
                    let c = capture_command(&self.backends[i], self.out.as_str());
                    CaptureAction::Run(c)
                } else {
                    self.next_backend(i + 1)
                }
            },
            CapturePhase::Running(i) => {
                match event {
                    CaptureEvent::Exited { success, output_exists } => {
                        if success && output_exists {
                            self.phase = CapturePhase::Decoding;
                            CaptureAction::Decode
                        } else {
                            self.next_backend(i + 1)
                        }
                    },
                    _ => {
                        assert(bs[i as int] == self.backends@[i as int]@);
                        self.phase = CapturePhase::Finished;
                        CaptureAction::Fail(
                            launch_error_message(self.backends[i].required[0].as_str()),
                        )
                    },
                }
            },
            _ => {
                self.phase = CapturePhase::Finished;
                if event == CaptureEvent::Decoded(true) {
                    CaptureAction::Done
                } else {
                    CaptureAction::Fail(decode_error_message(self.out.as_str()))
                }
            },
        }
    }
}

} // verus!
