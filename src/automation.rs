use vstd::prelude::*;
use vstd::string::{StrSliceExecFns, StringExecFns};

verus! {

/// The reason given while launching through Wine does not exist.
pub const WINE_LAUNCH_UNSUPPORTED: &'static str = "Launching an executable through Wine is not supported yet.";

/// Starts an executable through Wine on Arch Linux with X11. This is not
/// available yet, and says so instead of doing anything.
pub fn start_executable_arch_x11() -> (r: Result<(), String>)
    ensures
        r matches Err(m) && m@ == WINE_LAUNCH_UNSUPPORTED@,
{
    Err(WINE_LAUNCH_UNSUPPORTED.to_owned())
}

pub open spec fn wine_char(c: char) -> char {
    if c == '/' {
        '\\'
    } else {
        c
    }
}

/// A Unix path as Wine's `Z:` drive shows it: the drive, then the path with
/// every `/` turned into `\`.
pub open spec fn wine_path(path: Seq<char>) -> Seq<char> {
    "Z:"@ + path.map_values(|c: char| wine_char(c))
}

/// The path to hand to an installer: under Wine (`under_wine`), the path as
/// Wine's `Z:` drive shows it; otherwise the path as it is.
pub fn translate_path_for_wine(path: &str, under_wine: bool) -> (r: String)
    ensures
        under_wine ==> r@ == wine_path(path@),
        !under_wine ==> r@ == path@,
{
    if !under_wine {
        return path.to_owned();
    }
    let n = path.unicode_len();
    let mut out = String::from_str("Z:");
    let mut i: usize = 0;
    while i < n
        invariant
            n == path@.len(),
            i <= n,
            out@ == "Z:"@ + path@.subrange(0, i as int).map_values(|c: char| wine_char(c)),
        decreases n - i,
    {
        let c = path.get_char(i);
        if c == '/' {
            out.append("\\");
            proof {
                reveal_strlit("\\");
            }
        } else {
            let piece = path.substring_char(i, i + 1);
            out.append(piece);
        }
        proof {
            let f = |c: char| wine_char(c);
            assert(path@.subrange(0, i + 1) =~= path@.subrange(0, i as int).push(c));
            assert(path@.subrange(0, i + 1).map_values(f) =~= path@.subrange(0, i as int).map_values(f).push(wine_char(c)));
            assert(path@.subrange(i as int, i + 1) =~= seq![c]);
        }
        i = i + 1;
    }
    assert(path@.subrange(0, n as int) =~= path@);
    out
}

/// The installer components to keep checked, comma-separated, in the order
/// DirectX, Microsoft C++ runtime.
pub open spec fn components_list(directx_install: bool, microsoftcpp_install: bool) -> Seq<char> {
    if directx_install && microsoftcpp_install {
        "directx,microsoft"@
    } else if directx_install {
        "directx"@
    } else if microsoftcpp_install {
        "microsoft"@
    } else {
        ""@
    }
}

/// The installer's command-line argument that picks its components:
/// `/COMPONENTS="<list>"`.
pub fn components_args(directx_install: bool, microsoftcpp_install: bool) -> (r: String)
    ensures
        r@ == "/COMPONENTS=\""@ + components_list(directx_install, microsoftcpp_install) + "\""@,
{
    let mut r = String::from_str("/COMPONENTS=\"");
    if directx_install && microsoftcpp_install {
        r.append("directx,microsoft");
    } else if directx_install {
        r.append("directx");
    } else if microsoftcpp_install {
        r.append("microsoft");
    } else {
        proof {
            reveal_strlit("");
        }
        assert(r@ + ""@ =~= r@);
    }
    r.append("\"");
    r
}

/// One thing to do to the installer's window.
#[derive(Debug, Clone)]
pub enum InstallerStep {
    ClickOk,
    /// Let the window settle for this many milliseconds.
    Wait(u64),
    Click8gbLimit,
    ClickNext,
    /// Type the installation path.
    ChangePath(String),
    ClickInstall,
}

/// The steps of an unattended install up to the path page: after the
/// language dialog, the "limit to 8 GB" box is ticked when the user asked for the
/// 2 GB limit or when the installer offers the box.
pub open spec fn installer_steps_spec(
    two_gb_limit: bool,
    offers_8gb_limit: bool,
) -> Seq<InstallerStep> {
    let tick = two_gb_limit || offers_8gb_limit;
    let head: Seq<InstallerStep> = if tick {
        seq![InstallerStep::ClickOk, InstallerStep::Wait(1000), InstallerStep::Click8gbLimit, InstallerStep::Wait(200)]
    } else {
        seq![InstallerStep::ClickOk, InstallerStep::Wait(1000)]
    };
    head + seq![InstallerStep::ClickNext, InstallerStep::ClickNext]
}

/// `steps` are those of an unattended install into `path`: the steps up to
/// the path page, then the path typed, the next page and the install started.
pub open spec fn steps_match(
    steps: Seq<InstallerStep>,
    path: Seq<char>,
    two_gb_limit: bool,
    offers_8gb_limit: bool,
) -> bool {
    let head = installer_steps_spec(two_gb_limit, offers_8gb_limit);
    let n = head.len() as int;
    &&& steps.len() == n + 3
    &&& steps.subrange(0, n) == head
    &&& steps[n] matches InstallerStep::ChangePath(p) && p@ == path
    &&& steps[n + 1] == InstallerStep::ClickNext
    &&& steps[n + 2] == InstallerStep::ClickInstall
}

/// The steps of an unattended install into `path` (see
/// `installer_steps_spec`); `offers_8gb_limit` says whether the installer
/// shows the "limit to 8 GB" box, and is only looked at without the 2 GB limit.
pub fn installer_steps(path: &str, two_gb_limit: bool, offers_8gb_limit: bool) -> (r: Vec<InstallerStep>)
    ensures
        steps_match(r@, path@, two_gb_limit, offers_8gb_limit),
{
    let mut steps: Vec<InstallerStep> = Vec::new();
    steps.push(InstallerStep::ClickOk);
    steps.push(InstallerStep::Wait(1000));
    if two_gb_limit || offers_8gb_limit {
        steps.push(InstallerStep::Click8gbLimit);
        steps.push(InstallerStep::Wait(200));
    }
    steps.push(InstallerStep::ClickNext);
    steps.push(InstallerStep::ClickNext);
    let ghost head = steps@;
    steps.push(InstallerStep::ChangePath(path.to_owned()));
    steps.push(InstallerStep::ClickNext);
    steps.push(InstallerStep::ClickInstall);
    proof {
        assert(head =~= installer_steps_spec(two_gb_limit, offers_8gb_limit));
        assert(steps@.subrange(0, head.len() as int) =~= head);
    }
    steps
}

} // verus!
