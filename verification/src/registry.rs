//! The packages of the collection: their names, what each depends on, and
//! the meta packages that only group others.
use vstd::prelude::*;
use crate::text::str_eq;

verus! {

/// A package of the collection.
#[derive(Clone, Copy, Debug, PartialEq, Eq, Structural)]
pub enum PackageId {
    Bash,
    Busybox,
    Ncurses,
    TinyCc,
    Vim,
    Base,
    Gui,
    Xorg,
    XcbProto,
    XorgProto,
    XorgUtilMacros,
    Xtrans,
    LibX11,
    LibXau,
    LibXcb,
    LibXdmcp,
    LibXext,
    LibXdamage,
    LibXfixes,
    LibXi,
    LibXrandr,
    LibXrender,
    LibIce,
    LibSm,
    LibXinerama,
    LibXmu,
    LibXt,
    Freetype2,
    LibFontenc,
    LibXcvt,
    LibXfont2,
    Pixman,
    LibXkbfile,
    LibXshmfence,
    XcbUtil,
    XkeyboardConfig,
    XorgFontUtil,
    XorgServer,
    XorgXkbcomp,
    XorgTwm,
    XorgXauth,
    XorgXeyes,
    XorgXinit,
    XorgXmodmap,
    XorgXrdb,
}

/// The name of a package: its work directory, its stamps and its patch file
/// are named after it.
pub open spec fn name_of(id: PackageId) -> Seq<char> {
    match id {
        PackageId::Bash => "bash"@,
        PackageId::Busybox => "busybox"@,
        PackageId::Ncurses => "ncurses"@,
        PackageId::TinyCc => "tinycc"@,
        PackageId::Vim => "vim"@,
        PackageId::Base => "base"@,
        PackageId::Gui => "gui"@,
        PackageId::Xorg => "xorg"@,
        PackageId::XcbProto => "xcb-proto"@,
        PackageId::XorgProto => "xorg-proto"@,
        PackageId::XorgUtilMacros => "xorg-util-macros"@,
        PackageId::Xtrans => "xtrans"@,
        PackageId::LibX11 => "libx11"@,
        PackageId::LibXau => "libxau"@,
        PackageId::LibXcb => "libxcb"@,
        PackageId::LibXdmcp => "libxdmcp"@,
        PackageId::LibXext => "libxext"@,
        PackageId::LibXdamage => "libxdamage"@,
        PackageId::LibXfixes => "libxfixes"@,
        PackageId::LibXi => "libxi"@,
        PackageId::LibXrandr => "libxrandr"@,
        PackageId::LibXrender => "libxrender"@,
        PackageId::LibIce => "libice"@,
        PackageId::LibSm => "libsm"@,
        PackageId::LibXinerama => "libxinerama"@,
        PackageId::LibXmu => "libxmu"@,
        PackageId::LibXt => "libxt"@,
        PackageId::Freetype2 => "freetype2"@,
        PackageId::LibFontenc => "libfontenc"@,
        PackageId::LibXcvt => "libxcvt"@,
        PackageId::LibXfont2 => "libxfont2"@,
        PackageId::Pixman => "pixman"@,
        PackageId::LibXkbfile => "libxkbfile"@,
        PackageId::LibXshmfence => "libxshmfence"@,
        PackageId::XcbUtil => "xcb-util"@,
        PackageId::XkeyboardConfig => "xkeyboard-config"@,
        PackageId::XorgFontUtil => "xorg-font-util"@,
        PackageId::XorgServer => "xorg-server"@,
        PackageId::XorgXkbcomp => "xorg-xkbcomp"@,
        PackageId::XorgTwm => "xorg-twm"@,
        PackageId::XorgXauth => "xorg-xauth"@,
        PackageId::XorgXeyes => "xorg-xeyes"@,
        PackageId::XorgXinit => "xorg-xinit"@,
        PackageId::XorgXmodmap => "xorg-xmodmap"@,
        PackageId::XorgXrdb => "xorg-xrdb"@,
    }
}

/// The package that a command-line name selects; some packages answer to a
/// second, shorter name.
pub open spec fn id_named(name: Seq<char>) -> Option<PackageId> {
    if name == "bash"@ {
        Some(PackageId::Bash)
    } else if name == "busybox"@ {
        Some(PackageId::Busybox)
    } else if name == "ncurses"@ {
        Some(PackageId::Ncurses)
    } else if name == "tcc"@ {
        Some(PackageId::TinyCc)
    } else if name == "tinycc"@ {
        Some(PackageId::TinyCc)
    } else if name == "vim"@ {
        Some(PackageId::Vim)
    } else if name == "base"@ {
        Some(PackageId::Base)
    } else if name == "gui"@ {
        Some(PackageId::Gui)
    } else if name == "xorg"@ {
        Some(PackageId::Xorg)
    } else if name == "xcb-proto"@ {
        Some(PackageId::XcbProto)
    } else if name == "xorg-proto"@ {
        Some(PackageId::XorgProto)
    } else if name == "xorg-util-macros"@ {
        Some(PackageId::XorgUtilMacros)
    } else if name == "xtrans"@ {
        Some(PackageId::Xtrans)
    } else if name == "libx11"@ {
        Some(PackageId::LibX11)
    } else if name == "libxau"@ {
        Some(PackageId::LibXau)
    } else if name == "libxcb"@ {
        Some(PackageId::LibXcb)
    } else if name == "libxdmcp"@ {
        Some(PackageId::LibXdmcp)
    } else if name == "libxext"@ {
        Some(PackageId::LibXext)
    } else if name == "libxdamage"@ {
        Some(PackageId::LibXdamage)
    } else if name == "libxfixes"@ {
        Some(PackageId::LibXfixes)
    } else if name == "libxi"@ {
        Some(PackageId::LibXi)
    } else if name == "libxrandr"@ {
        Some(PackageId::LibXrandr)
    } else if name == "libxrender"@ {
        Some(PackageId::LibXrender)
    } else if name == "libice"@ {
        Some(PackageId::LibIce)
    } else if name == "libsm"@ {
        Some(PackageId::LibSm)
    } else if name == "libxinerama"@ {
        Some(PackageId::LibXinerama)
    } else if name == "libxmu"@ {
        Some(PackageId::LibXmu)
    } else if name == "libxt"@ {
        Some(PackageId::LibXt)
    } else if name == "freetype"@ {
        Some(PackageId::Freetype2)
    } else if name == "freetype2"@ {
        Some(PackageId::Freetype2)
    } else if name == "libfontenc"@ {
        Some(PackageId::LibFontenc)
    } else if name == "libxcvt"@ {
        Some(PackageId::LibXcvt)
    } else if name == "libxfont2"@ {
        Some(PackageId::LibXfont2)
    } else if name == "pixman"@ {
        Some(PackageId::Pixman)
    } else if name == "libxkbfile"@ {
        Some(PackageId::LibXkbfile)
    } else if name == "libxshmfence"@ {
        Some(PackageId::LibXshmfence)
    } else if name == "xcb-util"@ {
        Some(PackageId::XcbUtil)
    } else if name == "xkeyboard-config"@ {
        Some(PackageId::XkeyboardConfig)
    } else if name == "xorg-font-util"@ {
        Some(PackageId::XorgFontUtil)
    } else if name == "xorg-server"@ {
        Some(PackageId::XorgServer)
    } else if name == "xorg-xkbcomp"@ {
        Some(PackageId::XorgXkbcomp)
    } else if name == "xkbcomp"@ {
        Some(PackageId::XorgXkbcomp)
    } else if name == "xorg-twm"@ {
        Some(PackageId::XorgTwm)
    } else if name == "twm"@ {
        Some(PackageId::XorgTwm)
    } else if name == "xorg-xauth"@ {
        Some(PackageId::XorgXauth)
    } else if name == "xauth"@ {
        Some(PackageId::XorgXauth)
    } else if name == "xorg-xeyes"@ {
        Some(PackageId::XorgXeyes)
    } else if name == "xeyes"@ {
        Some(PackageId::XorgXeyes)
    } else if name == "xorg-xinit"@ {
        Some(PackageId::XorgXinit)
    } else if name == "xinit"@ {
        Some(PackageId::XorgXinit)
    } else if name == "xorg-xmodmap"@ {
        Some(PackageId::XorgXmodmap)
    } else if name == "xmodmap"@ {
        Some(PackageId::XorgXmodmap)
    } else if name == "xorg-xrdb"@ {
        Some(PackageId::XorgXrdb)
    } else if name == "xrdb"@ {
        Some(PackageId::XorgXrdb)
    } else {
        None
    }
}

/// The name of a package's installed program: tinycc installs `tcc`.
pub open spec fn install_name_of(id: PackageId) -> Seq<char> {
    if id is TinyCc {
        "tcc"@
    } else {
        name_of(id)
    }
}

/// Whether a package only groups other packages: it has no sources of its
/// own, and making it makes each of its members.
pub open spec fn is_meta(id: PackageId) -> bool {
    id is Base || id is Gui || id is Xorg
}

/// The members of a meta package, in the order they are made.
#[verifier::opaque]
pub open spec fn members_of(id: PackageId) -> Seq<PackageId> {
    match id {
        PackageId::Base => seq![PackageId::Bash, PackageId::Busybox, PackageId::TinyCc],
        PackageId::Gui => seq![PackageId::XorgServer, PackageId::XorgXinit, PackageId::XorgTwm, PackageId::XorgXeyes],
        PackageId::Xorg => seq![PackageId::Gui],
        _ => Seq::empty(),
    }
}

/// The packages that a package needs built and installed first, in the
/// order they are made.
#[verifier::opaque]
pub open spec fn deps_of(id: PackageId) -> Seq<PackageId> {
    match id {
        PackageId::Vim => seq![PackageId::Ncurses],
        PackageId::XorgProto => seq![PackageId::XorgUtilMacros],
        PackageId::Xtrans => seq![PackageId::XorgUtilMacros],
        PackageId::LibX11 => seq![PackageId::XorgProto, PackageId::LibXcb, PackageId::Xtrans],
        PackageId::LibXau => seq![PackageId::XorgProto],
        PackageId::LibXcb => seq![PackageId::XorgProto, PackageId::LibXau, PackageId::LibXdmcp, PackageId::XcbProto],
        PackageId::LibXdmcp => seq![PackageId::XorgProto],
        PackageId::LibXext => seq![PackageId::XorgProto, PackageId::LibX11],
        PackageId::LibXdamage => seq![PackageId::XorgProto, PackageId::LibX11, PackageId::LibXfixes],
        PackageId::LibXfixes => seq![PackageId::XorgProto, PackageId::LibX11],
        PackageId::LibXi => seq![PackageId::XorgProto, PackageId::LibXext, PackageId::LibXfixes],
        PackageId::LibXrandr => seq![PackageId::XorgProto, PackageId::LibX11, PackageId::LibXrender, PackageId::LibXext],
        PackageId::LibXrender => seq![PackageId::XorgProto, PackageId::LibX11],
        PackageId::LibIce => seq![PackageId::XorgProto, PackageId::Xtrans],
        PackageId::LibSm => seq![PackageId::XorgProto, PackageId::LibIce],
        PackageId::LibXinerama => seq![PackageId::LibX11, PackageId::LibXext, PackageId::XorgUtilMacros, PackageId::XorgProto],
        PackageId::LibXmu => seq![PackageId::LibXext, PackageId::LibXt],
        PackageId::LibXt => seq![PackageId::LibX11, PackageId::LibSm],
        PackageId::LibFontenc => seq![PackageId::XorgProto],
        PackageId::LibXfont2 => seq![PackageId::XorgUtilMacros, PackageId::XorgProto, PackageId::LibX11, PackageId::Xtrans, PackageId::Freetype2, PackageId::LibFontenc],
        PackageId::LibXkbfile => seq![PackageId::XorgUtilMacros, PackageId::XorgProto, PackageId::LibX11],
        PackageId::LibXshmfence => seq![PackageId::XorgProto],
        PackageId::XcbUtil => seq![PackageId::LibXcb],
        PackageId::XkeyboardConfig => seq![PackageId::XorgXkbcomp],
        PackageId::XorgFontUtil => seq![PackageId::XorgUtilMacros],
        PackageId::XorgServer => seq![PackageId::XorgUtilMacros, PackageId::XorgProto, PackageId::XorgFontUtil, PackageId::XcbProto, PackageId::XcbUtil, PackageId::Xtrans, PackageId::LibXinerama, PackageId::LibXcvt, PackageId::LibXshmfence, PackageId::LibX11, PackageId::LibXkbfile, PackageId::LibXmu, PackageId::LibXfont2, PackageId::LibXi, PackageId::LibXrender, PackageId::LibXrandr, PackageId::LibXcb, PackageId::LibXfixes, PackageId::LibXext, PackageId::LibXdamage, PackageId::Pixman, PackageId::XorgXkbcomp, PackageId::XkeyboardConfig],
        PackageId::XorgXkbcomp => seq![PackageId::LibXkbfile, PackageId::LibX11],
        PackageId::XorgTwm => seq![PackageId::LibXmu],
        PackageId::XorgXauth => seq![PackageId::LibXmu, PackageId::LibXau, PackageId::LibXext, PackageId::LibX11],
        PackageId::XorgXeyes => seq![PackageId::LibX11, PackageId::LibXt, PackageId::LibXext, PackageId::LibXmu, PackageId::LibXrender, PackageId::LibXi, PackageId::LibXcb],
        PackageId::XorgXinit => seq![PackageId::LibX11, PackageId::XorgXauth, PackageId::XorgXmodmap, PackageId::XorgXrdb],
        PackageId::XorgXmodmap => seq![PackageId::LibX11],
        PackageId::XorgXrdb => seq![PackageId::LibX11, PackageId::LibXmu],
        _ => Seq::empty(),
    }
}

/// The packages each package needs before it, as each package declares
/// them: vim needs ncurses, twm needs libxmu, the X server needs the X
/// libraries, protocols and tools it links against and runs, and the rest
/// need nothing.
pub proof fn law_declared_dependencies()
    ensures
        deps_of(PackageId::Bash) == Seq::<PackageId>::empty(),
        deps_of(PackageId::Busybox) == Seq::<PackageId>::empty(),
        deps_of(PackageId::Ncurses) == Seq::<PackageId>::empty(),
        deps_of(PackageId::TinyCc) == Seq::<PackageId>::empty(),
        deps_of(PackageId::Vim) == seq![PackageId::Ncurses],
        deps_of(PackageId::Base) == Seq::<PackageId>::empty(),
        deps_of(PackageId::Gui) == Seq::<PackageId>::empty(),
        deps_of(PackageId::Xorg) == Seq::<PackageId>::empty(),
        deps_of(PackageId::XcbProto) == Seq::<PackageId>::empty(),
        deps_of(PackageId::XorgProto) == seq![PackageId::XorgUtilMacros],
        deps_of(PackageId::XorgUtilMacros) == Seq::<PackageId>::empty(),
        deps_of(PackageId::Xtrans) == seq![PackageId::XorgUtilMacros],
        deps_of(PackageId::LibX11) == seq![PackageId::XorgProto, PackageId::LibXcb, PackageId::Xtrans],
        deps_of(PackageId::LibXau) == seq![PackageId::XorgProto],
        deps_of(PackageId::LibXcb) == seq![PackageId::XorgProto, PackageId::LibXau, PackageId::LibXdmcp, PackageId::XcbProto],
        deps_of(PackageId::LibXdmcp) == seq![PackageId::XorgProto],
        deps_of(PackageId::LibXext) == seq![PackageId::XorgProto, PackageId::LibX11],
        deps_of(PackageId::LibXdamage) == seq![PackageId::XorgProto, PackageId::LibX11, PackageId::LibXfixes],
        deps_of(PackageId::LibXfixes) == seq![PackageId::XorgProto, PackageId::LibX11],
        deps_of(PackageId::LibXi) == seq![PackageId::XorgProto, PackageId::LibXext, PackageId::LibXfixes],
        deps_of(PackageId::LibXrandr) == seq![PackageId::XorgProto, PackageId::LibX11, PackageId::LibXrender, PackageId::LibXext],
        deps_of(PackageId::LibXrender) == seq![PackageId::XorgProto, PackageId::LibX11],
        deps_of(PackageId::LibIce) == seq![PackageId::XorgProto, PackageId::Xtrans],
        deps_of(PackageId::LibSm) == seq![PackageId::XorgProto, PackageId::LibIce],
        deps_of(PackageId::LibXinerama) == seq![PackageId::LibX11, PackageId::LibXext, PackageId::XorgUtilMacros, PackageId::XorgProto],
        deps_of(PackageId::LibXmu) == seq![PackageId::LibXext, PackageId::LibXt],
        deps_of(PackageId::LibXt) == seq![PackageId::LibX11, PackageId::LibSm],
        deps_of(PackageId::Freetype2) == Seq::<PackageId>::empty(),
        deps_of(PackageId::LibFontenc) == seq![PackageId::XorgProto],
        deps_of(PackageId::LibXcvt) == Seq::<PackageId>::empty(),
        deps_of(PackageId::LibXfont2) == seq![PackageId::XorgUtilMacros, PackageId::XorgProto, PackageId::LibX11, PackageId::Xtrans, PackageId::Freetype2, PackageId::LibFontenc],
        deps_of(PackageId::Pixman) == Seq::<PackageId>::empty(),
        deps_of(PackageId::LibXkbfile) == seq![PackageId::XorgUtilMacros, PackageId::XorgProto, PackageId::LibX11],
        deps_of(PackageId::LibXshmfence) == seq![PackageId::XorgProto],
        deps_of(PackageId::XcbUtil) == seq![PackageId::LibXcb],
        deps_of(PackageId::XkeyboardConfig) == seq![PackageId::XorgXkbcomp],
        deps_of(PackageId::XorgFontUtil) == seq![PackageId::XorgUtilMacros],
        deps_of(PackageId::XorgServer) == seq![PackageId::XorgUtilMacros, PackageId::XorgProto, PackageId::XorgFontUtil, PackageId::XcbProto, PackageId::XcbUtil, PackageId::Xtrans, PackageId::LibXinerama, PackageId::LibXcvt, PackageId::LibXshmfence, PackageId::LibX11, PackageId::LibXkbfile, PackageId::LibXmu, PackageId::LibXfont2, PackageId::LibXi, PackageId::LibXrender, PackageId::LibXrandr, PackageId::LibXcb, PackageId::LibXfixes, PackageId::LibXext, PackageId::LibXdamage, PackageId::Pixman, PackageId::XorgXkbcomp, PackageId::XkeyboardConfig],
        deps_of(PackageId::XorgXkbcomp) == seq![PackageId::LibXkbfile, PackageId::LibX11],
        deps_of(PackageId::XorgTwm) == seq![PackageId::LibXmu],
        deps_of(PackageId::XorgXauth) == seq![PackageId::LibXmu, PackageId::LibXau, PackageId::LibXext, PackageId::LibX11],
        deps_of(PackageId::XorgXeyes) == seq![PackageId::LibX11, PackageId::LibXt, PackageId::LibXext, PackageId::LibXmu, PackageId::LibXrender, PackageId::LibXi, PackageId::LibXcb],
        deps_of(PackageId::XorgXinit) == seq![PackageId::LibX11, PackageId::XorgXauth, PackageId::XorgXmodmap, PackageId::XorgXrdb],
        deps_of(PackageId::XorgXmodmap) == seq![PackageId::LibX11],
        deps_of(PackageId::XorgXrdb) == seq![PackageId::LibX11, PackageId::LibXmu],
{
    reveal(deps_of);
}

/// A level in the dependency graph: every dependency and every member of a
/// package sits on a lower level.
#[verifier::opaque]
pub open spec fn rank(id: PackageId) -> nat {
    match id {
        PackageId::Bash => 0,
        PackageId::Busybox => 0,
        PackageId::Ncurses => 0,
        PackageId::TinyCc => 0,
        PackageId::Vim => 1,
        PackageId::Base => 1,
        PackageId::Gui => 9,
        PackageId::Xorg => 10,
        PackageId::XcbProto => 0,
        PackageId::XorgProto => 1,
        PackageId::XorgUtilMacros => 0,
        PackageId::Xtrans => 1,
        PackageId::LibX11 => 4,
        PackageId::LibXau => 2,
        PackageId::LibXcb => 3,
        PackageId::LibXdmcp => 2,
        PackageId::LibXext => 5,
        PackageId::LibXdamage => 6,
        PackageId::LibXfixes => 5,
        PackageId::LibXi => 6,
        PackageId::LibXrandr => 6,
        PackageId::LibXrender => 5,
        PackageId::LibIce => 2,
        PackageId::LibSm => 3,
        PackageId::LibXinerama => 6,
        PackageId::LibXmu => 6,
        PackageId::LibXt => 5,
        PackageId::Freetype2 => 0,
        PackageId::LibFontenc => 2,
        PackageId::LibXcvt => 0,
        PackageId::LibXfont2 => 5,
        PackageId::Pixman => 0,
        PackageId::LibXkbfile => 5,
        PackageId::LibXshmfence => 2,
        PackageId::XcbUtil => 4,
        PackageId::XkeyboardConfig => 7,
        PackageId::XorgFontUtil => 1,
        PackageId::XorgServer => 8,
        PackageId::XorgXkbcomp => 6,
        PackageId::XorgTwm => 7,
        PackageId::XorgXauth => 7,
        PackageId::XorgXeyes => 7,
        PackageId::XorgXinit => 8,
        PackageId::XorgXmodmap => 5,
        PackageId::XorgXrdb => 7,
    }
}
/// Every dependency and every member of a package sits on a lower level than
/// the package, so that no package needs itself, directly or through
/// others; no dependency is a meta package, and only meta packages have
/// members.
pub proof fn law_dependency_levels(id: PackageId)
    ensures
        forall|i: int|
            0 <= i < deps_of(id).len() ==> rank(#[trigger] deps_of(id)[i]) < rank(id) && !is_meta(
                deps_of(id)[i],
            ),
        forall|i: int| 0 <= i < members_of(id).len() ==> rank(#[trigger] members_of(id)[i]) < rank(id),
        !is_meta(id) ==> members_of(id).len() == 0,
        is_meta(id) ==> deps_of(id).len() == 0,
{
    reveal(deps_of);
    reveal(members_of);
    reveal(rank);
}

/// The lengths of the names that select packages.
proof fn lemma_name_lengths()
    ensures
        "bash"@.len() == 4,
        "busybox"@.len() == 7,
        "ncurses"@.len() == 7,
        "tcc"@.len() == 3,
        "tinycc"@.len() == 6,
        "vim"@.len() == 3,
        "base"@.len() == 4,
        "gui"@.len() == 3,
        "xorg"@.len() == 4,
        "xcb-proto"@.len() == 9,
        "xorg-proto"@.len() == 10,
        "xorg-util-macros"@.len() == 16,
        "xtrans"@.len() == 6,
        "libx11"@.len() == 6,
        "libxau"@.len() == 6,
        "libxcb"@.len() == 6,
        "libxdmcp"@.len() == 8,
        "libxext"@.len() == 7,
        "libxdamage"@.len() == 10,
        "libxfixes"@.len() == 9,
        "libxi"@.len() == 5,
        "libxrandr"@.len() == 9,
        "libxrender"@.len() == 10,
        "libice"@.len() == 6,
        "libsm"@.len() == 5,
        "libxinerama"@.len() == 11,
        "libxmu"@.len() == 6,
        "libxt"@.len() == 5,
        "freetype"@.len() == 8,
        "freetype2"@.len() == 9,
        "libfontenc"@.len() == 10,
        "libxcvt"@.len() == 7,
        "libxfont2"@.len() == 9,
        "pixman"@.len() == 6,
        "libxkbfile"@.len() == 10,
        "libxshmfence"@.len() == 12,
        "xcb-util"@.len() == 8,
        "xkeyboard-config"@.len() == 16,
        "xorg-font-util"@.len() == 14,
        "xorg-server"@.len() == 11,
        "xorg-xkbcomp"@.len() == 12,
        "xkbcomp"@.len() == 7,
        "xorg-twm"@.len() == 8,
        "twm"@.len() == 3,
        "xorg-xauth"@.len() == 10,
        "xauth"@.len() == 5,
        "xorg-xeyes"@.len() == 10,
        "xeyes"@.len() == 5,
        "xorg-xinit"@.len() == 10,
        "xinit"@.len() == 5,
        "xorg-xmodmap"@.len() == 12,
        "xmodmap"@.len() == 7,
        "xorg-xrdb"@.len() == 9,
        "xrdb"@.len() == 4,
{
    reveal_strlit("bash");
    reveal_strlit("busybox");
    reveal_strlit("ncurses");
    reveal_strlit("tcc");
    reveal_strlit("tinycc");
    reveal_strlit("vim");
    reveal_strlit("base");
    reveal_strlit("gui");
    reveal_strlit("xorg");
    reveal_strlit("xcb-proto");
    reveal_strlit("xorg-proto");
    reveal_strlit("xorg-util-macros");
    reveal_strlit("xtrans");
    reveal_strlit("libx11");
    reveal_strlit("libxau");
    reveal_strlit("libxcb");
    reveal_strlit("libxdmcp");
    reveal_strlit("libxext");
    reveal_strlit("libxdamage");
    reveal_strlit("libxfixes");
    reveal_strlit("libxi");
    reveal_strlit("libxrandr");
    reveal_strlit("libxrender");
    reveal_strlit("libice");
    reveal_strlit("libsm");
    reveal_strlit("libxinerama");
    reveal_strlit("libxmu");
    reveal_strlit("libxt");
    reveal_strlit("freetype");
    reveal_strlit("freetype2");
    reveal_strlit("libfontenc");
    reveal_strlit("libxcvt");
    reveal_strlit("libxfont2");
    reveal_strlit("pixman");
    reveal_strlit("libxkbfile");
    reveal_strlit("libxshmfence");
    reveal_strlit("xcb-util");
    reveal_strlit("xkeyboard-config");
    reveal_strlit("xorg-font-util");
    reveal_strlit("xorg-server");
    reveal_strlit("xorg-xkbcomp");
    reveal_strlit("xkbcomp");
    reveal_strlit("xorg-twm");
    reveal_strlit("twm");
    reveal_strlit("xorg-xauth");
    reveal_strlit("xauth");
    reveal_strlit("xorg-xeyes");
    reveal_strlit("xeyes");
    reveal_strlit("xorg-xinit");
    reveal_strlit("xinit");
    reveal_strlit("xorg-xmodmap");
    reveal_strlit("xmodmap");
    reveal_strlit("xorg-xrdb");
    reveal_strlit("xrdb");
}

/// Each package is selected again by its own name.
pub proof fn law_name_selects_package(id: PackageId)
    ensures
        id_named(name_of(id)) == Some(id),
{
    lemma_name_lengths();
    match id {
        PackageId::Bash => {},
        PackageId::Busybox => {},
        PackageId::Ncurses => {
            reveal_strlit("busybox");
            reveal_strlit("ncurses");
            assert("ncurses"@[0] != "busybox"@[0]);
        },
        PackageId::TinyCc => {},
        PackageId::Vim => {
            reveal_strlit("tcc");
            reveal_strlit("vim");
            assert("vim"@[0] != "tcc"@[0]);
        },
        PackageId::Base => {
            reveal_strlit("bash");
            reveal_strlit("base");
            assert("base"@[3] != "bash"@[3]);
        },
        PackageId::Gui => {
            reveal_strlit("tcc");
            reveal_strlit("vim");
            reveal_strlit("gui");
            assert("gui"@[0] != "tcc"@[0]);
            assert("gui"@[0] != "vim"@[0]);
        },
        PackageId::Xorg => {
            reveal_strlit("bash");
            reveal_strlit("base");
            reveal_strlit("xorg");
            assert("xorg"@[0] != "bash"@[0]);
            assert("xorg"@[0] != "base"@[0]);
        },
        PackageId::XcbProto => {},
        PackageId::XorgProto => {},
        PackageId::XorgUtilMacros => {},
        PackageId::Xtrans => {
            reveal_strlit("tinycc");
            reveal_strlit("xtrans");
            assert("xtrans"@[0] != "tinycc"@[0]);
        },
        PackageId::LibX11 => {
            reveal_strlit("tinycc");
            reveal_strlit("xtrans");
            reveal_strlit("libx11");
            assert("libx11"@[0] != "tinycc"@[0]);
            assert("libx11"@[0] != "xtrans"@[0]);
        },
        PackageId::LibXau => {
            reveal_strlit("tinycc");
            reveal_strlit("xtrans");
            reveal_strlit("libx11");
            reveal_strlit("libxau");
            assert("libxau"@[0] != "tinycc"@[0]);
            assert("libxau"@[0] != "xtrans"@[0]);
            assert("libxau"@[4] != "libx11"@[4]);
        },
        PackageId::LibXcb => {
            reveal_strlit("tinycc");
            reveal_strlit("xtrans");
            reveal_strlit("libx11");
            reveal_strlit("libxau");
            reveal_strlit("libxcb");
            assert("libxcb"@[0] != "tinycc"@[0]);
            assert("libxcb"@[0] != "xtrans"@[0]);
            assert("libxcb"@[4] != "libx11"@[4]);
            assert("libxcb"@[4] != "libxau"@[4]);
        },
        PackageId::LibXdmcp => {},
        PackageId::LibXext => {
            reveal_strlit("busybox");
            reveal_strlit("ncurses");
            reveal_strlit("libxext");
            assert("libxext"@[0] != "busybox"@[0]);
            assert("libxext"@[0] != "ncurses"@[0]);
        },
        PackageId::LibXdamage => {
            reveal_strlit("xorg-proto");
            reveal_strlit("libxdamage");
            assert("libxdamage"@[0] != "xorg-proto"@[0]);
        },
        PackageId::LibXfixes => {
            reveal_strlit("xcb-proto");
            reveal_strlit("libxfixes");
            assert("libxfixes"@[0] != "xcb-proto"@[0]);
        },
        PackageId::LibXi => {},
        PackageId::LibXrandr => {
            reveal_strlit("xcb-proto");
            reveal_strlit("libxfixes");
            reveal_strlit("libxrandr");
            assert("libxrandr"@[0] != "xcb-proto"@[0]);
            assert("libxrandr"@[4] != "libxfixes"@[4]);
        },
        PackageId::LibXrender => {
            reveal_strlit("xorg-proto");
            reveal_strlit("libxdamage");
            reveal_strlit("libxrender");
            assert("libxrender"@[0] != "xorg-proto"@[0]);
            assert("libxrender"@[4] != "libxdamage"@[4]);
        },
        PackageId::LibIce => {
            reveal_strlit("tinycc");
            reveal_strlit("xtrans");
            reveal_strlit("libx11");
            reveal_strlit("libxau");
            reveal_strlit("libxcb");
            reveal_strlit("libice");
            assert("libice"@[0] != "tinycc"@[0]);
            assert("libice"@[0] != "xtrans"@[0]);
            assert("libice"@[3] != "libx11"@[3]);
            assert("libice"@[3] != "libxau"@[3]);
            assert("libice"@[3] != "libxcb"@[3]);
        },
        PackageId::LibSm => {
            reveal_strlit("libxi");
            reveal_strlit("libsm");
            assert("libsm"@[3] != "libxi"@[3]);
        },
        PackageId::LibXinerama => {},
        PackageId::LibXmu => {
            reveal_strlit("tinycc");
            reveal_strlit("xtrans");
            reveal_strlit("libx11");
            reveal_strlit("libxau");
            reveal_strlit("libxcb");
            reveal_strlit("libice");
            reveal_strlit("libxmu");
            assert("libxmu"@[0] != "tinycc"@[0]);
            assert("libxmu"@[0] != "xtrans"@[0]);
            assert("libxmu"@[4] != "libx11"@[4]);
            assert("libxmu"@[4] != "libxau"@[4]);
            assert("libxmu"@[4] != "libxcb"@[4]);
            assert("libxmu"@[3] != "libice"@[3]);
        },
        PackageId::LibXt => {
            reveal_strlit("libxi");
            reveal_strlit("libsm");
            reveal_strlit("libxt");
            assert("libxt"@[4] != "libxi"@[4]);
            assert("libxt"@[3] != "libsm"@[3]);
        },
        PackageId::Freetype2 => {
            reveal_strlit("xcb-proto");
            reveal_strlit("libxfixes");
            reveal_strlit("libxrandr");
            reveal_strlit("freetype2");
            assert("freetype2"@[0] != "xcb-proto"@[0]);
            assert("freetype2"@[0] != "libxfixes"@[0]);
            assert("freetype2"@[0] != "libxrandr"@[0]);
        },
        PackageId::LibFontenc => {
            reveal_strlit("xorg-proto");
            reveal_strlit("libxdamage");
            reveal_strlit("libxrender");
            reveal_strlit("libfontenc");
            assert("libfontenc"@[0] != "xorg-proto"@[0]);
            assert("libfontenc"@[3] != "libxdamage"@[3]);
            assert("libfontenc"@[3] != "libxrender"@[3]);
        },
        PackageId::LibXcvt => {
            reveal_strlit("busybox");
            reveal_strlit("ncurses");
            reveal_strlit("libxext");
            reveal_strlit("libxcvt");
            assert("libxcvt"@[0] != "busybox"@[0]);
            assert("libxcvt"@[0] != "ncurses"@[0]);
            assert("libxcvt"@[4] != "libxext"@[4]);
        },
        PackageId::LibXfont2 => {
            reveal_strlit("xcb-proto");
            reveal_strlit("libxfixes");
            reveal_strlit("libxrandr");
            reveal_strlit("freetype2");
            reveal_strlit("libxfont2");
            assert("libxfont2"@[0] != "xcb-proto"@[0]);
            assert("libxfont2"@[5] != "libxfixes"@[5]);
            assert("libxfont2"@[4] != "libxrandr"@[4]);
            assert("libxfont2"@[0] != "freetype2"@[0]);
        },
        PackageId::Pixman => {
            reveal_strlit("tinycc");
            reveal_strlit("xtrans");
            reveal_strlit("libx11");
            reveal_strlit("libxau");
            reveal_strlit("libxcb");
            reveal_strlit("libice");
            reveal_strlit("libxmu");
            reveal_strlit("pixman");
            assert("pixman"@[0] != "tinycc"@[0]);
            assert("pixman"@[0] != "xtrans"@[0]);
            assert("pixman"@[0] != "libx11"@[0]);
            assert("pixman"@[0] != "libxau"@[0]);
            assert("pixman"@[0] != "libxcb"@[0]);
            assert("pixman"@[0] != "libice"@[0]);
            assert("pixman"@[0] != "libxmu"@[0]);
        },
        PackageId::LibXkbfile => {
            reveal_strlit("xorg-proto");
            reveal_strlit("libxdamage");
            reveal_strlit("libxrender");
            reveal_strlit("libfontenc");
            reveal_strlit("libxkbfile");
            assert("libxkbfile"@[0] != "xorg-proto"@[0]);
            assert("libxkbfile"@[4] != "libxdamage"@[4]);
            assert("libxkbfile"@[4] != "libxrender"@[4]);
            assert("libxkbfile"@[3] != "libfontenc"@[3]);
        },
        PackageId::LibXshmfence => {},
        PackageId::XcbUtil => {
            reveal_strlit("libxdmcp");
            reveal_strlit("freetype");
            reveal_strlit("xcb-util");
            assert("xcb-util"@[0] != "libxdmcp"@[0]);
            assert("xcb-util"@[0] != "freetype"@[0]);
        },
        PackageId::XkeyboardConfig => {
            reveal_strlit("xorg-util-macros");
            reveal_strlit("xkeyboard-config");
            assert("xkeyboard-config"@[1] != "xorg-util-macros"@[1]);
        },
        PackageId::XorgFontUtil => {},
        PackageId::XorgServer => {
            reveal_strlit("libxinerama");
            reveal_strlit("xorg-server");
            assert("xorg-server"@[0] != "libxinerama"@[0]);
        },
        PackageId::XorgXkbcomp => {
            reveal_strlit("libxshmfence");
            reveal_strlit("xorg-xkbcomp");
            assert("xorg-xkbcomp"@[0] != "libxshmfence"@[0]);
        },
        PackageId::XorgTwm => {
            reveal_strlit("libxdmcp");
            reveal_strlit("freetype");
            reveal_strlit("xcb-util");
            reveal_strlit("xorg-twm");
            assert("xorg-twm"@[0] != "libxdmcp"@[0]);
            assert("xorg-twm"@[0] != "freetype"@[0]);
            assert("xorg-twm"@[1] != "xcb-util"@[1]);
        },
        PackageId::XorgXauth => {
            reveal_strlit("xorg-proto");
            reveal_strlit("libxdamage");
            reveal_strlit("libxrender");
            reveal_strlit("libfontenc");
            reveal_strlit("libxkbfile");
            reveal_strlit("xorg-xauth");
            assert("xorg-xauth"@[5] != "xorg-proto"@[5]);
            assert("xorg-xauth"@[0] != "libxdamage"@[0]);
            assert("xorg-xauth"@[0] != "libxrender"@[0]);
            assert("xorg-xauth"@[0] != "libfontenc"@[0]);
            assert("xorg-xauth"@[0] != "libxkbfile"@[0]);
        },
        PackageId::XorgXeyes => {
            reveal_strlit("xorg-proto");
            reveal_strlit("libxdamage");
            reveal_strlit("libxrender");
            reveal_strlit("libfontenc");
            reveal_strlit("libxkbfile");
            reveal_strlit("xorg-xauth");
            reveal_strlit("xorg-xeyes");
            assert("xorg-xeyes"@[5] != "xorg-proto"@[5]);
            assert("xorg-xeyes"@[0] != "libxdamage"@[0]);
            assert("xorg-xeyes"@[0] != "libxrender"@[0]);
            assert("xorg-xeyes"@[0] != "libfontenc"@[0]);
            assert("xorg-xeyes"@[0] != "libxkbfile"@[0]);
            assert("xorg-xeyes"@[6] != "xorg-xauth"@[6]);
        },
        PackageId::XorgXinit => {
            reveal_strlit("xorg-proto");
            reveal_strlit("libxdamage");
            reveal_strlit("libxrender");
            reveal_strlit("libfontenc");
            reveal_strlit("libxkbfile");
            reveal_strlit("xorg-xauth");
            reveal_strlit("xorg-xeyes");
            reveal_strlit("xorg-xinit");
            assert("xorg-xinit"@[5] != "xorg-proto"@[5]);
            assert("xorg-xinit"@[0] != "libxdamage"@[0]);
            assert("xorg-xinit"@[0] != "libxrender"@[0]);
            assert("xorg-xinit"@[0] != "libfontenc"@[0]);
            assert("xorg-xinit"@[0] != "libxkbfile"@[0]);
            assert("xorg-xinit"@[6] != "xorg-xauth"@[6]);
            assert("xorg-xinit"@[6] != "xorg-xeyes"@[6]);
        },
        PackageId::XorgXmodmap => {
            reveal_strlit("libxshmfence");
            reveal_strlit("xorg-xkbcomp");
            reveal_strlit("xorg-xmodmap");
            assert("xorg-xmodmap"@[0] != "libxshmfence"@[0]);
            assert("xorg-xmodmap"@[6] != "xorg-xkbcomp"@[6]);
        },
        PackageId::XorgXrdb => {
            reveal_strlit("xcb-proto");
            reveal_strlit("libxfixes");
            reveal_strlit("libxrandr");
            reveal_strlit("freetype2");
            reveal_strlit("libxfont2");
            reveal_strlit("xorg-xrdb");
            assert("xorg-xrdb"@[1] != "xcb-proto"@[1]);
            assert("xorg-xrdb"@[0] != "libxfixes"@[0]);
            assert("xorg-xrdb"@[0] != "libxrandr"@[0]);
            assert("xorg-xrdb"@[0] != "freetype2"@[0]);
            assert("xorg-xrdb"@[0] != "libxfont2"@[0]);
        },
    }
}

impl PackageId {
    /// The package's name.
    pub fn name(self) -> (r: &'static str)
        ensures
            r@ == name_of(self),
    {
        match self {
            PackageId::Bash => "bash",
            PackageId::Busybox => "busybox",
            PackageId::Ncurses => "ncurses",
            PackageId::TinyCc => "tinycc",
            PackageId::Vim => "vim",
            PackageId::Base => "base",
            PackageId::Gui => "gui",
            PackageId::Xorg => "xorg",
            PackageId::XcbProto => "xcb-proto",
            PackageId::XorgProto => "xorg-proto",
            PackageId::XorgUtilMacros => "xorg-util-macros",
            PackageId::Xtrans => "xtrans",
            PackageId::LibX11 => "libx11",
            PackageId::LibXau => "libxau",
            PackageId::LibXcb => "libxcb",
            PackageId::LibXdmcp => "libxdmcp",
            PackageId::LibXext => "libxext",
            PackageId::LibXdamage => "libxdamage",
            PackageId::LibXfixes => "libxfixes",
            PackageId::LibXi => "libxi",
            PackageId::LibXrandr => "libxrandr",
            PackageId::LibXrender => "libxrender",
            PackageId::LibIce => "libice",
            PackageId::LibSm => "libsm",
            PackageId::LibXinerama => "libxinerama",
            PackageId::LibXmu => "libxmu",
            PackageId::LibXt => "libxt",
            PackageId::Freetype2 => "freetype2",
            PackageId::LibFontenc => "libfontenc",
            PackageId::LibXcvt => "libxcvt",
            PackageId::LibXfont2 => "libxfont2",
            PackageId::Pixman => "pixman",
            PackageId::LibXkbfile => "libxkbfile",
            PackageId::LibXshmfence => "libxshmfence",
            PackageId::XcbUtil => "xcb-util",
            PackageId::XkeyboardConfig => "xkeyboard-config",
            PackageId::XorgFontUtil => "xorg-font-util",
            PackageId::XorgServer => "xorg-server",
            PackageId::XorgXkbcomp => "xorg-xkbcomp",
            PackageId::XorgTwm => "xorg-twm",
            PackageId::XorgXauth => "xorg-xauth",
            PackageId::XorgXeyes => "xorg-xeyes",
            PackageId::XorgXinit => "xorg-xinit",
            PackageId::XorgXmodmap => "xorg-xmodmap",
            PackageId::XorgXrdb => "xorg-xrdb",
        }
    }

    /// The name of the package's installed program.
    pub fn install_name(self) -> (r: &'static str)
        ensures
            r@ == install_name_of(self),
    {
        match self {
            PackageId::TinyCc => "tcc",
            _ => self.name(),
        }
    }

    /// Whether the package only groups others.
    pub fn is_meta(self) -> (r: bool)
        ensures
            r == is_meta(self),
    {
        match self {
            PackageId::Base | PackageId::Gui | PackageId::Xorg => true,
            _ => false,
        }
    }

    /// The package's level in the dependency graph.
    pub fn rank(self) -> (r: u8)
        ensures
            r == rank(self),
    {
        reveal(rank);
        match self {
            PackageId::Bash => 0,
            PackageId::Busybox => 0,
            PackageId::Ncurses => 0,
            PackageId::TinyCc => 0,
            PackageId::Vim => 1,
            PackageId::Base => 1,
            PackageId::Gui => 9,
            PackageId::Xorg => 10,
            PackageId::XcbProto => 0,
            PackageId::XorgProto => 1,
            PackageId::XorgUtilMacros => 0,
            PackageId::Xtrans => 1,
            PackageId::LibX11 => 4,
            PackageId::LibXau => 2,
            PackageId::LibXcb => 3,
            PackageId::LibXdmcp => 2,
            PackageId::LibXext => 5,
            PackageId::LibXdamage => 6,
            PackageId::LibXfixes => 5,
            PackageId::LibXi => 6,
            PackageId::LibXrandr => 6,
            PackageId::LibXrender => 5,
            PackageId::LibIce => 2,
            PackageId::LibSm => 3,
            PackageId::LibXinerama => 6,
            PackageId::LibXmu => 6,
            PackageId::LibXt => 5,
            PackageId::Freetype2 => 0,
            PackageId::LibFontenc => 2,
            PackageId::LibXcvt => 0,
            PackageId::LibXfont2 => 5,
            PackageId::Pixman => 0,
            PackageId::LibXkbfile => 5,
            PackageId::LibXshmfence => 2,
            PackageId::XcbUtil => 4,
            PackageId::XkeyboardConfig => 7,
            PackageId::XorgFontUtil => 1,
            PackageId::XorgServer => 8,
            PackageId::XorgXkbcomp => 6,
            PackageId::XorgTwm => 7,
            PackageId::XorgXauth => 7,
            PackageId::XorgXeyes => 7,
            PackageId::XorgXinit => 8,
            PackageId::XorgXmodmap => 5,
            PackageId::XorgXrdb => 7,
        }
    }

    /// The package's dependencies.
    pub fn dependencies(self) -> (r: Vec<PackageId>)
        ensures
            r@ == deps_of(self),
    {
        reveal(deps_of);
        match self {
            PackageId::Vim => vec![PackageId::Ncurses],
            PackageId::XorgProto => vec![PackageId::XorgUtilMacros],
            PackageId::Xtrans => vec![PackageId::XorgUtilMacros],
            PackageId::LibX11 => vec![PackageId::XorgProto, PackageId::LibXcb, PackageId::Xtrans],
            PackageId::LibXau => vec![PackageId::XorgProto],
            PackageId::LibXcb => vec![PackageId::XorgProto, PackageId::LibXau, PackageId::LibXdmcp, PackageId::XcbProto],
            PackageId::LibXdmcp => vec![PackageId::XorgProto],
            PackageId::LibXext => vec![PackageId::XorgProto, PackageId::LibX11],
            PackageId::LibXdamage => vec![PackageId::XorgProto, PackageId::LibX11, PackageId::LibXfixes],
            PackageId::LibXfixes => vec![PackageId::XorgProto, PackageId::LibX11],
            PackageId::LibXi => vec![PackageId::XorgProto, PackageId::LibXext, PackageId::LibXfixes],
            PackageId::LibXrandr => vec![PackageId::XorgProto, PackageId::LibX11, PackageId::LibXrender, PackageId::LibXext],
            PackageId::LibXrender => vec![PackageId::XorgProto, PackageId::LibX11],
            PackageId::LibIce => vec![PackageId::XorgProto, PackageId::Xtrans],
            PackageId::LibSm => vec![PackageId::XorgProto, PackageId::LibIce],
            PackageId::LibXinerama => vec![PackageId::LibX11, PackageId::LibXext, PackageId::XorgUtilMacros, PackageId::XorgProto],
            PackageId::LibXmu => vec![PackageId::LibXext, PackageId::LibXt],
            PackageId::LibXt => vec![PackageId::LibX11, PackageId::LibSm],
            PackageId::LibFontenc => vec![PackageId::XorgProto],
            PackageId::LibXfont2 => vec![PackageId::XorgUtilMacros, PackageId::XorgProto, PackageId::LibX11, PackageId::Xtrans, PackageId::Freetype2, PackageId::LibFontenc],
            PackageId::LibXkbfile => vec![PackageId::XorgUtilMacros, PackageId::XorgProto, PackageId::LibX11],
            PackageId::LibXshmfence => vec![PackageId::XorgProto],
            PackageId::XcbUtil => vec![PackageId::LibXcb],
            PackageId::XkeyboardConfig => vec![PackageId::XorgXkbcomp],
            PackageId::XorgFontUtil => vec![PackageId::XorgUtilMacros],
            PackageId::XorgServer => vec![PackageId::XorgUtilMacros, PackageId::XorgProto, PackageId::XorgFontUtil, PackageId::XcbProto, PackageId::XcbUtil, PackageId::Xtrans, PackageId::LibXinerama, PackageId::LibXcvt, PackageId::LibXshmfence, PackageId::LibX11, PackageId::LibXkbfile, PackageId::LibXmu, PackageId::LibXfont2, PackageId::LibXi, PackageId::LibXrender, PackageId::LibXrandr, PackageId::LibXcb, PackageId::LibXfixes, PackageId::LibXext, PackageId::LibXdamage, PackageId::Pixman, PackageId::XorgXkbcomp, PackageId::XkeyboardConfig],
            PackageId::XorgXkbcomp => vec![PackageId::LibXkbfile, PackageId::LibX11],
            PackageId::XorgTwm => vec![PackageId::LibXmu],
            PackageId::XorgXauth => vec![PackageId::LibXmu, PackageId::LibXau, PackageId::LibXext, PackageId::LibX11],
            PackageId::XorgXeyes => vec![PackageId::LibX11, PackageId::LibXt, PackageId::LibXext, PackageId::LibXmu, PackageId::LibXrender, PackageId::LibXi, PackageId::LibXcb],
            PackageId::XorgXinit => vec![PackageId::LibX11, PackageId::XorgXauth, PackageId::XorgXmodmap, PackageId::XorgXrdb],
            PackageId::XorgXmodmap => vec![PackageId::LibX11],
            PackageId::XorgXrdb => vec![PackageId::LibX11, PackageId::LibXmu],
            _ => Vec::new(),
        }
    }

    /// The members of a meta package; empty for
    /// any other package.
    pub fn members(self) -> (r: Vec<PackageId>)
        ensures
            r@ == members_of(self),
    {
        reveal(members_of);
        match self {
            PackageId::Base => vec![PackageId::Bash, PackageId::Busybox, PackageId::TinyCc],
            PackageId::Gui => vec![PackageId::XorgServer, PackageId::XorgXinit, PackageId::XorgTwm, PackageId::XorgXeyes],
            PackageId::Xorg => vec![PackageId::Gui],
            _ => Vec::new(),
        }
    }
}

/// The package that a command-line name selects.
pub fn package_by_name(name: &str) -> (r: Option<PackageId>)
    ensures
        r == id_named(name@),
{
    if str_eq(name, "bash") {
        Some(PackageId::Bash)
    } else if str_eq(name, "busybox") {
        Some(PackageId::Busybox)
    } else if str_eq(name, "ncurses") {
        Some(PackageId::Ncurses)
    } else if str_eq(name, "tcc") {
        Some(PackageId::TinyCc)
    } else if str_eq(name, "tinycc") {
        Some(PackageId::TinyCc)
    } else if str_eq(name, "vim") {
        Some(PackageId::Vim)
    } else if str_eq(name, "base") {
        Some(PackageId::Base)
    } else if str_eq(name, "gui") {
        Some(PackageId::Gui)
    } else if str_eq(name, "xorg") {
        Some(PackageId::Xorg)
    } else if str_eq(name, "xcb-proto") {
        Some(PackageId::XcbProto)
    } else if str_eq(name, "xorg-proto") {
        Some(PackageId::XorgProto)
    } else if str_eq(name, "xorg-util-macros") {
        Some(PackageId::XorgUtilMacros)
    } else if str_eq(name, "xtrans") {
        Some(PackageId::Xtrans)
    } else if str_eq(name, "libx11") {
        Some(PackageId::LibX11)
    } else if str_eq(name, "libxau") {
        Some(PackageId::LibXau)
    } else if str_eq(name, "libxcb") {
        Some(PackageId::LibXcb)
    } else if str_eq(name, "libxdmcp") {
        Some(PackageId::LibXdmcp)
    } else if str_eq(name, "libxext") {
        Some(PackageId::LibXext)
    } else if str_eq(name, "libxdamage") {
        Some(PackageId::LibXdamage)
    } else if str_eq(name, "libxfixes") {
        Some(PackageId::LibXfixes)
    } else if str_eq(name, "libxi") {
        Some(PackageId::LibXi)
    } else if str_eq(name, "libxrandr") {
        Some(PackageId::LibXrandr)
    } else if str_eq(name, "libxrender") {
        Some(PackageId::LibXrender)
    } else if str_eq(name, "libice") {
        Some(PackageId::LibIce)
    } else if str_eq(name, "libsm") {
        Some(PackageId::LibSm)
    } else if str_eq(name, "libxinerama") {
        Some(PackageId::LibXinerama)
    } else if str_eq(name, "libxmu") {
        Some(PackageId::LibXmu)
    } else if str_eq(name, "libxt") {
        Some(PackageId::LibXt)
    } else if str_eq(name, "freetype") {
        Some(PackageId::Freetype2)
    } else if str_eq(name, "freetype2") {
        Some(PackageId::Freetype2)
    } else if str_eq(name, "libfontenc") {
        Some(PackageId::LibFontenc)
    } else if str_eq(name, "libxcvt") {
        Some(PackageId::LibXcvt)
    } else if str_eq(name, "libxfont2") {
        Some(PackageId::LibXfont2)
    } else if str_eq(name, "pixman") {
        Some(PackageId::Pixman)
    } else if str_eq(name, "libxkbfile") {
        Some(PackageId::LibXkbfile)
    } else if str_eq(name, "libxshmfence") {
        Some(PackageId::LibXshmfence)
    } else if str_eq(name, "xcb-util") {
        Some(PackageId::XcbUtil)
    } else if str_eq(name, "xkeyboard-config") {
        Some(PackageId::XkeyboardConfig)
    } else if str_eq(name, "xorg-font-util") {
        Some(PackageId::XorgFontUtil)
    } else if str_eq(name, "xorg-server") {
        Some(PackageId::XorgServer)
    } else if str_eq(name, "xorg-xkbcomp") {
        Some(PackageId::XorgXkbcomp)
    } else if str_eq(name, "xkbcomp") {
        Some(PackageId::XorgXkbcomp)
    } else if str_eq(name, "xorg-twm") {
        Some(PackageId::XorgTwm)
    } else if str_eq(name, "twm") {
        Some(PackageId::XorgTwm)
    } else if str_eq(name, "xorg-xauth") {
        Some(PackageId::XorgXauth)
    } else if str_eq(name, "xauth") {
        Some(PackageId::XorgXauth)
    } else if str_eq(name, "xorg-xeyes") {
        Some(PackageId::XorgXeyes)
    } else if str_eq(name, "xeyes") {
        Some(PackageId::XorgXeyes)
    } else if str_eq(name, "xorg-xinit") {
        Some(PackageId::XorgXinit)
    } else if str_eq(name, "xinit") {
        Some(PackageId::XorgXinit)
    } else if str_eq(name, "xorg-xmodmap") {
        Some(PackageId::XorgXmodmap)
    } else if str_eq(name, "xmodmap") {
        Some(PackageId::XorgXmodmap)
    } else if str_eq(name, "xorg-xrdb") {
        Some(PackageId::XorgXrdb)
    } else if str_eq(name, "xrdb") {
        Some(PackageId::XorgXrdb)
    } else {
        None
    }
}

} // verus!
