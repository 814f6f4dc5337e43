use vstd::prelude::*;

verus! {

/// Installation prefix of the target system.
pub const PREFIX: &'static str = "/";

/// Directory that holds executables.
pub const BINDIR: &'static str = "/programs";

/// Directory that holds system executables.
pub const SBINDIR: &'static str = "/programs";

/// Directory that holds C headers.
pub const INCLUDEDIR: &'static str = "/libs/include";

/// Directory that holds shared libraries.
pub const LIB_BINARY_DIR: &'static str = "/libs/lib_binaries";

/// Directory of library data such as `pkgconfig`.
pub const LIBDIR: &'static str = "/libs";

/// Directory of system configuration.
pub const SYSCONFDIR: &'static str = "/etc";

/// Directory of variable state.
pub const LOCALSTATEDIR: &'static str = "/var";

/// X application defaults.
pub const APPDEFAULTDIR: &'static str = "/etc/X11/app-defaults";

/// XKB data.
pub const XKB_DIR: &'static str = "/share/X11/xkb";

/// Compiled XKB keymaps.
pub const XKB_OUTPUT_DIR: &'static str = "/var/lib/xkb";

/// Default X font path.
pub const DEFAULT_FONT_PATH: &'static str = "/share/fonts/X11";

/// The path with one leading `/` removed, if it has one.
pub open spec fn spec_relative_dir(path: Seq<char>) -> Seq<char> {
    if path.len() > 0 && path[0] == '/' {
        path.subrange(1, path.len() as int)
    } else {
        path
    }
}

/// Strips one leading `/` from a layout directory, so that it can be joined
/// below a sysroot.
pub fn relative_dir(path: &'static str) -> (r: &'static str)
    ensures
        r@ == spec_relative_dir(path@),
{
    let n = path.unicode_len();
    if n > 0 && path.get_char(0) == '/' {
        path.substring_char(1, n)
    } else {
        path
    }
}

} // verus!
