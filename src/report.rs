//! The lines the batch operations print, and the name under which a
//! repository is shown.
use vstd::prelude::*;
use crate::git::{Lookup, Mode, RepoStatus};
use crate::text::views;

verus! {

/// Width to which a repository's name is padded in the info report.
pub const NAME_WIDTH: usize = 15;

/// The views of an optional string.
pub open spec fn opt_view(o: Option<String>) -> Option<Seq<char>> {
    match o {
        Some(s) => Some(s@),
        None => None,
    }
}

/// The last component of a path, when it is a normal component (not `..`,
/// a root or nothing).
pub uninterp spec fn file_name_of(p: Seq<char>) -> Option<Seq<char>>;

/// Relies on `std::path::Path::file_name`: the path's final component, or
/// `None` when it has none. A component of a `&str` is valid UTF-8, so the
/// conversion back to a string always succeeds.
#[verifier::external_body]
fn file_name(p: &str) -> (r: Option<String>)
    ensures
        opt_view(r) == file_name_of(p@),
{
    std::path::Path::new(p).file_name().and_then(|n| n.to_str()).map(|n| n.to_string())
}

/// The name shown for repository `dir`, given the final component of `dir`,
/// the current directory and the final component of that: the root `.` is
/// shown by the current directory's name (its whole path when it has no
/// name, `.` when it is unknown); any other path by its final component, or
/// whole when it has none.
pub open spec fn name_for(
    dir: Seq<char>,
    dir_base: Option<Seq<char>>,
    cwd: Option<Seq<char>>,
    cwd_base: Option<Seq<char>>,
) -> Seq<char> {
    if dir == "."@ {
        match cwd {
            Some(c) => match cwd_base {
                Some(b) => b,
                None => c,
            },
            None => dir,
        }
    } else {
        match dir_base {
            Some(b) => b,
            None => dir,
        }
    }
}

/// The name shown for repository `dir` when the current directory is `cwd`.
pub open spec fn shown_name(dir: Seq<char>, cwd: Option<Seq<char>>) -> Seq<char> {
    name_for(
        dir,
        file_name_of(dir),
        cwd,
        match cwd {
            Some(c) => file_name_of(c),
            None => None,
        },
    )
}

fn is_dot(s: &str) -> (r: bool)
    ensures
        r == (s@ == "."@),
{
    proof {
        reveal_strlit(".");
    }
    let n = s.unicode_len();
    if n == 1 {
        let c = s.get_char(0);
        if c == '.' {
            assert(s@ =~= "."@);
            true
        } else {
            false
        }
    } else {
        false
    }
}

/// The name shown for `dir` from the final components already looked up
/// (`dir_base` of `dir`, `cwd_base` of `cwd`).
pub fn display_name_from(
    dir: &str,
    dir_base: &Option<String>,
    cwd: &Option<String>,
    cwd_base: &Option<String>,
) -> (r: String)
    ensures
        r@ == name_for(dir@, opt_view(*dir_base), opt_view(*cwd), opt_view(*cwd_base)),
{
    if is_dot(dir) {
        match cwd {
            Some(c) => match cwd_base {
                Some(b) => b.clone(),
                None => c.clone(),
            },
            None => String::from_str(dir),
        }
    } else {
        match dir_base {
            Some(b) => b.clone(),
            None => String::from_str(dir),
        }
    }
}

/// The name shown for repository `dir` when the current directory is `cwd`
/// (`None` when it could not be determined).
pub fn display_name(dir: &str, cwd: &Option<String>) -> (r: String)
    ensures
        r@ == shown_name(dir@, opt_view(*cwd)),
{
    let dir_base = file_name(dir);
    let cwd_base = match cwd {
        Some(c) => file_name(c.as_str()),
        None => None,
    };
    display_name_from(dir, &dir_base, cwd, &cwd_base)
}

/// `n` spaces.
pub open spec fn spaces(n: nat) -> Seq<char> {
    Seq::new(n, |i: int| ' ')
}

/// `s` padded on the right with spaces to at least `w` characters.
pub open spec fn pad_right(s: Seq<char>, w: nat) -> Seq<char> {
    if s.len() < w {
        s + spaces((w - s.len()) as nat)
    } else {
        s
    }
}

/// A looked-up value, or `fallback` in its place.
pub open spec fn or_fallback(l: Option<Seq<char>>, fallback: Seq<char>) -> Seq<char> {
    match l {
        Some(v) => v,
        None => fallback,
    }
}

/// The first line of a repository's info block: its padded name and branch.
pub open spec fn title_line(name: Seq<char>, branch: Option<Seq<char>>) -> Seq<char> {
    pad_right(name, NAME_WIDTH as nat) + " ["@ + or_fallback(branch, "<unknown>"@) + "]"@
}

/// The line for one remote and its URL.
pub open spec fn remote_line(remote: Seq<char>, url: Option<Seq<char>>) -> Seq<char> {
    "  > "@ + remote + ": "@ + or_fallback(url, "<no url>"@)
}

/// The line shown in place of the remotes when there are none.
pub open spec fn no_remote_line() -> Seq<char> {
    "  > <no remote>"@
}

/// The remote lines: one per remote, or the no-remote line.
pub open spec fn remote_block(remotes: Seq<Seq<char>>, urls: Seq<Option<Seq<char>>>) -> Seq<Seq<char>> {
    if remotes.len() == 0 {
        seq![no_remote_line()]
    } else {
        Seq::new(remotes.len(), |i: int| remote_line(remotes[i], urls[i]))
    }
}

/// A repository's info block: title, remotes, then a blank line.
pub open spec fn info_block(
    name: Seq<char>,
    branch: Option<Seq<char>>,
    remotes: Seq<Seq<char>>,
    urls: Seq<Option<Seq<char>>>,
) -> Seq<Seq<char>> {
    seq![title_line(name, branch)] + remote_block(remotes, urls) + seq![Seq::<char>::empty()]
}

/// The views of a vector of lookups.
pub open spec fn lookup_views(v: Seq<Lookup>) -> Seq<Option<Seq<char>>> {
    v.map_values(|l: Lookup| l@)
}

fn append_fallback(s: &mut String, l: &Lookup, fallback: &str)
    ensures
        final(s)@ == old(s)@ + or_fallback(l@, fallback@),
{
    match l {
        Lookup::Found(v) => s.append(v.as_str()),
        Lookup::Unavailable => s.append(fallback),
    }
}

/// The lines shown for one repository in the info report. `urls[i]` is the
/// URL looked up for `remotes[i]`.
pub fn info_lines(name: &str, branch: &Lookup, remotes: &Vec<String>, urls: &Vec<Lookup>) -> (r: Vec<String>)
    requires
        remotes.len() == urls.len(),
    ensures
        views(r@) == info_block(name@, branch@, views(remotes@), lookup_views(urls@)),
{
    let mut title = String::from_str(name);
    let n = name.unicode_len();
    let mut k: usize = n;
    while k < NAME_WIDTH
        invariant
            n == name@.len(),
            n <= k,
            k <= NAME_WIDTH || k == n,
            title@ == name@ + spaces((k - n) as nat),
        decreases NAME_WIDTH - k,
    {
        title.append(" ");
        proof {
            reveal_strlit(" ");
        }
        assert(spaces((k + 1 - n) as nat) =~= spaces((k - n) as nat) + " "@);
        k = k + 1;
    }
    assert(title@ =~= pad_right(name@, NAME_WIDTH as nat)) by {
        if n >= NAME_WIDTH {
            assert(spaces(0) =~= Seq::<char>::empty());
        }
    }
    title.append(" [");
    append_fallback(&mut title, branch, "<unknown>");
    title.append("]");
    let mut out: Vec<String> = Vec::new();
    out.push(title);
    if remotes.len() == 0 {
        out.push(String::from_str("  > <no remote>"));
    } else {
        let mut i: usize = 0;
        while i < remotes.len()
            invariant
                i <= remotes.len(),
                remotes.len() == urls.len(),
                out@.len() == i + 1,
                out@[0]@ == title_line(name@, branch@),
                forall|j: int| 0 <= j < i ==> #[trigger] out@[j + 1]@ == remote_line(remotes@[j]@, urls@[j]@),
            decreases remotes.len() - i,
        {
            let mut line = String::from_str("  > ");
            line.append(remotes[i].as_str());
            line.append(": ");
            append_fallback(&mut line, &urls[i], "<no url>");
            out.push(line);
            i = i + 1;
        }
    }
    let ghost body = views(out@);
    assert(body[0] == title_line(name@, branch@));
    assert(body.subrange(1, body.len() as int) =~= remote_block(views(remotes@), lookup_views(urls@)));
    out.push(String::new());
    assert(views(out@) =~= info_block(name@, branch@, views(remotes@), lookup_views(urls@)));
    out
}

/// The decimal digits.
pub open spec fn digits() -> Seq<char> {
    seq!['0', '1', '2', '3', '4', '5', '6', '7', '8', '9']
}

/// `n` written in decimal.
pub open spec fn decimal(n: nat) -> Seq<char>
    decreases n,
{
    if n < 10 {
        seq![digits()[n as int]]
    } else {
        decimal(n / 10) + seq![digits()[(n % 10) as int]]
    }
}

fn digit_text(d: usize) -> (r: &'static str)
    requires
        d < 10,
    ensures
        r@ == seq![digits()[d as int]],
{
    proof {
        reveal_strlit("0");
        reveal_strlit("1");
        reveal_strlit("2");
        reveal_strlit("3");
        reveal_strlit("4");
        reveal_strlit("5");
        reveal_strlit("6");
        reveal_strlit("7");
        reveal_strlit("8");
        reveal_strlit("9");
    }
    let r = match d {
        0 => "0",
        1 => "1",
        2 => "2",
        3 => "3",
        4 => "4",
        5 => "5",
        6 => "6",
        7 => "7",
        8 => "8",
        _ => "9",
    };
    assert(r@ =~= seq![digits()[d as int]]);
    r
}

/// `n` written in decimal.
pub fn decimal_text(n: usize) -> (r: String)
    ensures
        r@ == decimal(n as nat),
    decreases n,
{
    if n < 10 {
        String::from_str(digit_text(n))
    } else {
        let mut s = decimal_text(n / 10);
        s.append(digit_text(n % 10));
        s
    }
}

/// The line printed when no repository was found.
pub open spec fn none_found_line() -> Seq<char> {
    "当前目录下没有找到 Git 仓库"@
}

/// The lines that open the info report on `count` repositories.
pub open spec fn info_heading(count: nat) -> Seq<Seq<char>> {
    if count == 0 {
        seq![none_found_line()]
    } else {
        seq!["找到 "@ + decimal(count) + " 个 Git 仓库:"@, Seq::<char>::empty()]
    }
}

/// The lines that open the info report on `count` repositories: a count, or
/// the statement that there are none.
pub fn info_header(count: usize) -> (r: Vec<String>)
    ensures
        views(r@) == info_heading(count as nat),
{
    let mut out: Vec<String> = Vec::new();
    if count == 0 {
        out.push(String::from_str("当前目录下没有找到 Git 仓库"));
    } else {
        let mut line = String::from_str("找到 ");
        line.append(decimal_text(count).as_str());
        line.append(" 个 Git 仓库:");
        out.push(line);
        out.push(String::new());
    }
    assert(views(out@) =~= info_heading(count as nat));
    out
}

/// The line printed before a repository is worked on.
pub open spec fn progress(mode: Mode, dir: Seq<char>) -> Seq<Seq<char>> {
    match mode {
        Mode::Info => seq![],
        Mode::Clean => seq!["清理仓库: "@ + dir],
        Mode::Pull => seq!["拉取仓库: "@ + dir],
    }
}

/// The lines printed once a repository is done.
pub open spec fn verdict(mode: Mode, status: RepoStatus) -> Seq<Seq<char>> {
    match (mode, status) {
        (Mode::Info, _) => seq![],
        (Mode::Clean, RepoStatus::Succeeded) => seq!["  ✅ 成功清理"@, Seq::<char>::empty()],
        (Mode::Clean, RepoStatus::Failed) => seq!["  ❌ 清理失败"@, Seq::<char>::empty()],
        (Mode::Pull, RepoStatus::Succeeded) => seq!["  ✅ 拉取成功"@, Seq::<char>::empty()],
        (Mode::Pull, RepoStatus::Failed) => seq!["  ❌ 拉取失败"@, Seq::<char>::empty()],
    }
}

/// The line printed before a clean or a pull starts on `dir`; none for info.
pub fn progress_lines(mode: Mode, dir: &str) -> (r: Vec<String>)
    ensures
        views(r@) == progress(mode, dir@),
{
    let mut out: Vec<String> = Vec::new();
    match mode {
        Mode::Info => {},
        Mode::Clean => {
            let mut line = String::from_str("清理仓库: ");
            line.append(dir);
            out.push(line);
        },
        Mode::Pull => {
            let mut line = String::from_str("拉取仓库: ");
            line.append(dir);
            out.push(line);
        },
    }
    assert(views(out@) =~= progress(mode, dir@));
    out
}

/// The lines printed once a clean or a pull is done on a repository; none
/// for info.
pub fn verdict_lines(mode: Mode, status: RepoStatus) -> (r: Vec<String>)
    ensures
        views(r@) == verdict(mode, status),
{
    let mut out: Vec<String> = Vec::new();
    match (mode, status) {
        (Mode::Info, _) => {},
        (Mode::Clean, RepoStatus::Succeeded) => out.push(String::from_str("  ✅ 成功清理")),
        (Mode::Clean, RepoStatus::Failed) => out.push(String::from_str("  ❌ 清理失败")),
        (Mode::Pull, RepoStatus::Succeeded) => out.push(String::from_str("  ✅ 拉取成功")),
        (Mode::Pull, RepoStatus::Failed) => out.push(String::from_str("  ❌ 拉取失败")),
    }
    if mode != Mode::Info {
        out.push(String::new());
    }
    assert(views(out@) =~= verdict(mode, status));
    out
}

} // verus!
