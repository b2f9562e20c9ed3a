use vstd::prelude::*;

verus! {

/// Rows of a freshly created terminal.
pub const INITIAL_ROWS: u16 = 24;

/// Columns of a freshly created terminal.
pub const INITIAL_COLS: u16 = 80;

/// Terminal geometry in character cells.
///
/// Pixel dimensions are not modelled: they are always zero.
#[derive(Clone, Copy, Debug, PartialEq, Eq, Structural)]
pub struct TermSize {
    pub rows: u16,
    pub cols: u16,
}

/// The geometry a new session starts with: 24 rows by 80 columns.
pub fn initial_size() -> (r: TermSize)
    ensures
        r.rows == 24,
        r.cols == 80,
{
    TermSize { rows: INITIAL_ROWS, cols: INITIAL_COLS }
}

/// The program name of the platform's default shell.
pub open spec fn shell_for(windows: bool) -> Seq<char> {
    if windows {
        "powershell"@
    } else {
        "bash"@
    }
}

/// The shell started in a new session: `powershell` on Windows, `bash`
/// elsewhere. Either is resolved through the executable search path.
pub fn default_shell(windows: bool) -> (r: String)
    ensures
        r@ == shell_for(windows),
{
    if windows {
        "powershell".to_string()
    } else {
        "bash".to_string()
    }
}

} // verus!
