//! Refreshes the GNU `config.sub` and `config.guess` of a source tree and
//! teaches `config.sub` the `seele` system.
use vstd::prelude::*;
use crate::path::{file_name_chars, file_name_of, join, join_path};
use crate::text::{
    chars_of, contains, eq_chars, lemma_replace_absent, lemma_replace_creates_none,
    lemma_replace_inserts, lemma_replace_keeps, occurs_at, replace, replace_seq, seq_contains,
};
use crate::config_sub_facts::{
    lemma_host_anchor_apart_from_kernel_entry, lemma_host_anchor_apart_from_os_entry,
    lemma_host_mark_apart_from_kernel_anchor, lemma_host_mark_apart_from_os_anchor,
    lemma_kernel_anchor_apart_from_os_entry, lemma_kernel_mark_apart_from_os_anchor,
};
use crate::types::Context;

verus! {

/// The line of the `ironclad` machine pattern that the `seele` one follows.
pub open spec fn sub_host_anchor() -> Seq<char> {
    "| ironclad-* \\"@
}

/// That line followed by the `seele` machine pattern.
pub open spec fn sub_host_entry() -> Seq<char> {
    "| ironclad-* \\\n\t\t\t| seele-* \\"@
}

/// The `seele` machine pattern.
pub open spec fn sub_host_mark() -> Seq<char> {
    "| seele-* \\"@
}

/// The `ironclad` kernel case that the `seele` one follows.
pub open spec fn sub_kernel_anchor() -> Seq<char> {
    "\tironclad*)\n\t\tkernel=ironclad\n\t\tos=`echo \"$basic_os\" | sed -e 's|ironclad|gnu|'`\n\t\t;;"@
}

/// That case followed by the `seele` kernel case.
pub open spec fn sub_kernel_entry() -> Seq<char> {
    "\tironclad*)\n\t\tkernel=ironclad\n\t\tos=`echo \"$basic_os\" | sed -e 's|ironclad|gnu|'`\n\t\t;;\n\tseele*)\n\t\tkernel=seele\n\t\tos=`echo \"$basic_os\" | sed -e 's|seele|gnu|'`\n\t\t;;"@
}

/// The start of the `seele` kernel case.
pub open spec fn sub_kernel_mark() -> Seq<char> {
    "\tseele*)"@
}

/// The `ironclad-gnu` system case that the `seele` one follows.
pub open spec fn sub_os_anchor() -> Seq<char> {
    "\tironclad-gnu*-)\n\t\t;;"@
}

/// That case followed by the `seele-gnu` system case.
pub open spec fn sub_os_entry() -> Seq<char> {
    "\tironclad-gnu*-)\n\t\t;;\n\tseele-gnu*-)\n\t\t;;"@
}

/// The `seele-gnu` system case.
pub open spec fn sub_os_mark() -> Seq<char> {
    "\tseele-gnu*-)"@
}

/// `config.sub` with the `seele` cases added next to the `ironclad` ones,
/// each only when it is not there already.
pub open spec fn config_sub_patched(content: Seq<char>) -> Seq<char> {
    let c1 = if !seq_contains(content, sub_host_mark()) {
        replace_seq(content, sub_host_anchor(), sub_host_entry())
    } else {
        content
    };
    let c2 = if !seq_contains(c1, sub_kernel_mark()) {
        replace_seq(c1, sub_kernel_anchor(), sub_kernel_entry())
    } else {
        c1
    };
    if !seq_contains(c2, sub_os_mark()) {
        replace_seq(c2, sub_os_anchor(), sub_os_entry())
    } else {
        c2
    }
}

/// The content of a `config.sub` patched for the `seele` system.
pub fn patch_config_sub_for_seele(content: &str) -> (r: String)
    ensures
        r@ == config_sub_patched(content@),
{
    proof {
        reveal_strlit("| ironclad-* \\");
        reveal_strlit("\tironclad*)\n\t\tkernel=ironclad\n\t\tos=`echo \"$basic_os\" | sed -e 's|ironclad|gnu|'`\n\t\t;;");
        reveal_strlit("\tironclad-gnu*-)\n\t\t;;");
    }
    let mut c = content.to_string();
    if !contains(c.as_str(), "| seele-* \\") {
        c = replace(c.as_str(), "| ironclad-* \\", "| ironclad-* \\\n\t\t\t| seele-* \\");
    }
    if !contains(c.as_str(), "\tseele*)") {
        c = replace(
            c.as_str(),
            "\tironclad*)\n\t\tkernel=ironclad\n\t\tos=`echo \"$basic_os\" | sed -e 's|ironclad|gnu|'`\n\t\t;;",
            "\tironclad*)\n\t\tkernel=ironclad\n\t\tos=`echo \"$basic_os\" | sed -e 's|ironclad|gnu|'`\n\t\t;;\n\tseele*)\n\t\tkernel=seele\n\t\tos=`echo \"$basic_os\" | sed -e 's|seele|gnu|'`\n\t\t;;",
        );
    }
    if !contains(c.as_str(), "\tseele-gnu*-)") {
        c = replace(c.as_str(), "\tironclad-gnu*-)\n\t\t;;", "\tironclad-gnu*-)\n\t\t;;\n\tseele-gnu*-)\n\t\t;;");
    }
    c
}

/// Patching a patched `config.sub` again changes nothing: each `seele` case
/// is added only where it is missing, adding one keeps the others, and no
/// addition brings back the `ironclad` text that another is added after.
pub proof fn law_config_sub_patched_once(content: Seq<char>)
    ensures
        config_sub_patched(config_sub_patched(content)) == config_sub_patched(content),
{
    reveal_strlit("| ironclad-* \\");
    reveal_strlit("| ironclad-* \\\n\t\t\t| seele-* \\");
    reveal_strlit("| seele-* \\");
    reveal_strlit("\tseele*)");
    reveal_strlit("\tironclad-gnu*-)\n\t\t;;");
    reveal_strlit("\tironclad-gnu*-)\n\t\t;;\n\tseele-gnu*-)\n\t\t;;");
    reveal_strlit("\tseele-gnu*-)");
    reveal_strlit("\tironclad*)\n\t\tkernel=ironclad\n\t\tos=`echo \"$basic_os\" | sed -e 's|ironclad|gnu|'`\n\t\t;;");
    reveal_strlit("\tironclad*)\n\t\tkernel=ironclad\n\t\tos=`echo \"$basic_os\" | sed -e 's|ironclad|gnu|'`\n\t\t;;\n\tseele*)\n\t\tkernel=seele\n\t\tos=`echo \"$basic_os\" | sed -e 's|seele|gnu|'`\n\t\t;;");
    lemma_host_mark_apart_from_kernel_anchor();
    lemma_host_mark_apart_from_os_anchor();
    lemma_kernel_mark_apart_from_os_anchor();
    lemma_host_anchor_apart_from_kernel_entry();
    lemma_host_anchor_apart_from_os_entry();
    lemma_kernel_anchor_apart_from_os_entry();
    let (p1, r1, m1) = (sub_host_anchor(), sub_host_entry(), sub_host_mark());
    let (p2, r2, m2) = (sub_kernel_anchor(), sub_kernel_entry(), sub_kernel_mark());
    let (p3, r3, m3) = (sub_os_anchor(), sub_os_entry(), sub_os_mark());
    assert(occurs_at(r1, 18, m1));
    assert(occurs_at(r2, 86, m2));
    assert(occurs_at(r3, 22, m3));
    let c1 = if !seq_contains(content, m1) {
        replace_seq(content, p1, r1)
    } else {
        content
    };
    let c2 = if !seq_contains(c1, m2) {
        replace_seq(c1, p2, r2)
    } else {
        c1
    };
    let c3 = if !seq_contains(c2, m3) {
        replace_seq(c2, p3, r3)
    } else {
        c2
    };
    assert(c3 == config_sub_patched(content));
    // The machine pattern: added, or its anchor absent, for good.
    if seq_contains(content, m1) || seq_contains(content, p1) {
        if !seq_contains(content, m1) {
            lemma_replace_inserts(content, p1, r1, m1);
        }
        if !seq_contains(c1, m2) {
            lemma_replace_keeps(c1, p2, r2, m1);
        }
        if !seq_contains(c2, m3) {
            lemma_replace_keeps(c2, p3, r3, m1);
        }
        assert(seq_contains(c3, m1));
    } else {
        lemma_replace_absent(content, p1, r1);
        if !seq_contains(c1, m2) {
            lemma_replace_creates_none(c1, p2, r2, p1);
        }
        if !seq_contains(c2, m3) {
            lemma_replace_creates_none(c2, p3, r3, p1);
        }
        assert(!seq_contains(c3, p1));
        lemma_replace_absent(c3, p1, r1);
    }
    // The kernel case.
    if seq_contains(c1, m2) || seq_contains(c1, p2) {
        if !seq_contains(c1, m2) {
            lemma_replace_inserts(c1, p2, r2, m2);
        }
        if !seq_contains(c2, m3) {
            lemma_replace_keeps(c2, p3, r3, m2);
        }
        assert(seq_contains(c3, m2));
    } else {
        lemma_replace_absent(c1, p2, r2);
        if !seq_contains(c2, m3) {
            lemma_replace_creates_none(c2, p3, r3, p2);
        }
        assert(!seq_contains(c3, p2));
        lemma_replace_absent(c3, p2, r2);
    }
    // The system case.
    if seq_contains(c2, m3) || seq_contains(c2, p3) {
        if !seq_contains(c2, m3) {
            lemma_replace_inserts(c2, p3, r3, m3);
        }
        assert(seq_contains(c3, m3));
    } else {
        lemma_replace_absent(c2, p3, r3);
        lemma_replace_absent(c3, p3, r3);
    }
}

/// What refreshing does to one file of a source tree.
#[derive(Clone, Debug, PartialEq, Eq)]
pub enum GnuConfigUpdate {
    /// Replace it with the packages' `config.sub` (at the path given), then
    /// patch it for `seele`.
    Sub(String),
    /// Replace it with the packages' `config.guess` (at the path given).
    Guess(String),
}

/// The update for a file found below a source tree: files named
/// `config.sub` and `config.guess` are replaced by the copies in the
/// packages directory; others are left alone.
pub fn refresh_gnu_config(ctx: &Context, file: &str) -> (r: Option<GnuConfigUpdate>)
    ensures
        file_name_of(file@) == Some("config.sub"@) ==> (r matches Some(GnuConfigUpdate::Sub(p))
            && p@ == join_path(ctx.packages_root@, "config.sub"@)),
        file_name_of(file@) == Some("config.guess"@) ==> (r matches Some(GnuConfigUpdate::Guess(p))
            && p@ == join_path(ctx.packages_root@, "config.guess"@)),
        file_name_of(file@) != Some("config.sub"@) && file_name_of(file@) != Some(
            "config.guess"@,
        ) ==> r is None,
{
    proof {
        reveal_strlit("config.sub");
        reveal_strlit("config.guess");
    }
    let p = chars_of(file);
    let sub = chars_of("config.sub");
    let guess = chars_of("config.guess");
    match file_name_chars(&p) {
        Some(f) => {
            if eq_chars(&f, &sub) {
                Some(GnuConfigUpdate::Sub(join(ctx.packages_root.as_str(), "config.sub")))
            } else if eq_chars(&f, &guess) {
                Some(GnuConfigUpdate::Guess(join(ctx.packages_root.as_str(), "config.guess")))
            } else {
                None
            }
        },
        None => None,
    }
}

} // verus!
