//! That the texts which patching `config.sub` adds and looks for cannot
//! overlap one another, offset by offset.
use vstd::prelude::*;
use crate::gnu_config::{
    sub_host_anchor, sub_host_mark, sub_kernel_anchor, sub_kernel_entry, sub_kernel_mark,
    sub_os_anchor, sub_os_entry,
};
use crate::text::{agree_at, can_overlap};

verus! {

/// No placement of the `seele` machine pattern next to the `ironclad` kernel case agrees with it.
pub proof fn lemma_host_mark_apart_from_kernel_anchor()
    ensures
        !can_overlap(sub_host_mark(), sub_kernel_anchor()),
{
    reveal_strlit("| seele-* \\");
    reveal_strlit("\tironclad*)\n\t\tkernel=ironclad\n\t\tos=`echo \"$basic_os\" | sed -e 's|ironclad|gnu|'`\n\t\t;;");
    let x = sub_host_mark();
    let r = sub_kernel_anchor();
    assert forall|d: int| -x.len() < d < r.len() implies !#[trigger] agree_at(x, r, d) by {
        if d == -10 {
            assert(x.subrange(10, 11)[0] != r.subrange(0, 1)[0]);
        } else if d == -9 {
            assert(x.subrange(9, 11)[0] != r.subrange(0, 2)[0]);
        } else if d == -8 {
            assert(x.subrange(8, 11)[0] != r.subrange(0, 3)[0]);
        } else if d == -7 {
            assert(x.subrange(7, 11)[0] != r.subrange(0, 4)[0]);
        } else if d == -6 {
            assert(x.subrange(6, 11)[0] != r.subrange(0, 5)[0]);
        } else if d == -5 {
            assert(x.subrange(5, 11)[0] != r.subrange(0, 6)[0]);
        } else if d == -4 {
            assert(x.subrange(4, 11)[0] != r.subrange(0, 7)[0]);
        } else if d == -3 {
            assert(x.subrange(3, 11)[0] != r.subrange(0, 8)[0]);
        } else if d == -2 {
            assert(x.subrange(2, 11)[0] != r.subrange(0, 9)[0]);
        } else if d == -1 {
            assert(x.subrange(1, 11)[0] != r.subrange(0, 10)[0]);
        } else if d == 0 {
            assert(x.subrange(0, 11)[0] != r.subrange(0, 11)[0]);
        } else if d == 1 {
            assert(x.subrange(0, 11)[0] != r.subrange(1, 12)[0]);
        } else if d == 2 {
            assert(x.subrange(0, 11)[0] != r.subrange(2, 13)[0]);
        } else if d == 3 {
            assert(x.subrange(0, 11)[0] != r.subrange(3, 14)[0]);
        } else if d == 4 {
            assert(x.subrange(0, 11)[0] != r.subrange(4, 15)[0]);
        } else if d == 5 {
            assert(x.subrange(0, 11)[0] != r.subrange(5, 16)[0]);
        } else if d == 6 {
            assert(x.subrange(0, 11)[0] != r.subrange(6, 17)[0]);
        } else if d == 7 {
            assert(x.subrange(0, 11)[0] != r.subrange(7, 18)[0]);
        } else if d == 8 {
            assert(x.subrange(0, 11)[0] != r.subrange(8, 19)[0]);
        } else if d == 9 {
            assert(x.subrange(0, 11)[0] != r.subrange(9, 20)[0]);
        } else if d == 10 {
            assert(x.subrange(0, 11)[0] != r.subrange(10, 21)[0]);
        } else if d == 11 {
            assert(x.subrange(0, 11)[0] != r.subrange(11, 22)[0]);
        } else if d == 12 {
            assert(x.subrange(0, 11)[0] != r.subrange(12, 23)[0]);
        } else if d == 13 {
            assert(x.subrange(0, 11)[0] != r.subrange(13, 24)[0]);
        } else if d == 14 {
            assert(x.subrange(0, 11)[0] != r.subrange(14, 25)[0]);
        } else if d == 15 {
            assert(x.subrange(0, 11)[0] != r.subrange(15, 26)[0]);
        } else if d == 16 {
            assert(x.subrange(0, 11)[0] != r.subrange(16, 27)[0]);
        } else if d == 17 {
            assert(x.subrange(0, 11)[0] != r.subrange(17, 28)[0]);
        } else if d == 18 {
            assert(x.subrange(0, 11)[0] != r.subrange(18, 29)[0]);
        } else if d == 19 {
            assert(x.subrange(0, 11)[0] != r.subrange(19, 30)[0]);
        } else if d == 20 {
            assert(x.subrange(0, 11)[0] != r.subrange(20, 31)[0]);
        } else if d == 21 {
            assert(x.subrange(0, 11)[0] != r.subrange(21, 32)[0]);
        } else if d == 22 {
            assert(x.subrange(0, 11)[0] != r.subrange(22, 33)[0]);
        } else if d == 23 {
            assert(x.subrange(0, 11)[0] != r.subrange(23, 34)[0]);
        } else if d == 24 {
            assert(x.subrange(0, 11)[0] != r.subrange(24, 35)[0]);
        } else if d == 25 {
            assert(x.subrange(0, 11)[0] != r.subrange(25, 36)[0]);
        } else if d == 26 {
            assert(x.subrange(0, 11)[0] != r.subrange(26, 37)[0]);
        } else if d == 27 {
            assert(x.subrange(0, 11)[0] != r.subrange(27, 38)[0]);
        } else if d == 28 {
            assert(x.subrange(0, 11)[0] != r.subrange(28, 39)[0]);
        } else if d == 29 {
            assert(x.subrange(0, 11)[0] != r.subrange(29, 40)[0]);
        } else if d == 30 {
            assert(x.subrange(0, 11)[0] != r.subrange(30, 41)[0]);
        } else if d == 31 {
            assert(x.subrange(0, 11)[0] != r.subrange(31, 42)[0]);
        } else if d == 32 {
            assert(x.subrange(0, 11)[0] != r.subrange(32, 43)[0]);
        } else if d == 33 {
            assert(x.subrange(0, 11)[0] != r.subrange(33, 44)[0]);
        } else if d == 34 {
            assert(x.subrange(0, 11)[0] != r.subrange(34, 45)[0]);
        } else if d == 35 {
            assert(x.subrange(0, 11)[0] != r.subrange(35, 46)[0]);
        } else if d == 36 {
            assert(x.subrange(0, 11)[0] != r.subrange(36, 47)[0]);
        } else if d == 37 {
            assert(x.subrange(0, 11)[0] != r.subrange(37, 48)[0]);
        } else if d == 38 {
            assert(x.subrange(0, 11)[0] != r.subrange(38, 49)[0]);
        } else if d == 39 {
            assert(x.subrange(0, 11)[0] != r.subrange(39, 50)[0]);
        } else if d == 40 {
            assert(x.subrange(0, 11)[0] != r.subrange(40, 51)[0]);
        } else if d == 41 {
            assert(x.subrange(0, 11)[0] != r.subrange(41, 52)[0]);
        } else if d == 42 {
            assert(x.subrange(0, 11)[0] != r.subrange(42, 53)[0]);
        } else if d == 43 {
            assert(x.subrange(0, 11)[0] != r.subrange(43, 54)[0]);
        } else if d == 44 {
            assert(x.subrange(0, 11)[0] != r.subrange(44, 55)[0]);
        } else if d == 45 {
            assert(x.subrange(0, 11)[0] != r.subrange(45, 56)[0]);
        } else if d == 46 {
            assert(x.subrange(0, 11)[0] != r.subrange(46, 57)[0]);
        } else if d == 47 {
            assert(x.subrange(0, 11)[0] != r.subrange(47, 58)[0]);
        } else if d == 48 {
            assert(x.subrange(0, 11)[0] != r.subrange(48, 59)[0]);
        } else if d == 49 {
            assert(x.subrange(0, 11)[0] != r.subrange(49, 60)[0]);
        } else if d == 50 {
            assert(x.subrange(0, 11)[0] != r.subrange(50, 61)[0]);
        } else if d == 51 {
            assert(x.subrange(0, 11)[0] != r.subrange(51, 62)[0]);
        } else if d == 52 {
            assert(x.subrange(0, 11)[0] != r.subrange(52, 63)[0]);
        } else if d == 53 {
            assert(x.subrange(0, 11)[4] != r.subrange(53, 64)[4]);
        } else if d == 54 {
            assert(x.subrange(0, 11)[0] != r.subrange(54, 65)[0]);
        } else if d == 55 {
            assert(x.subrange(0, 11)[0] != r.subrange(55, 66)[0]);
        } else if d == 56 {
            assert(x.subrange(0, 11)[0] != r.subrange(56, 67)[0]);
        } else if d == 57 {
            assert(x.subrange(0, 11)[0] != r.subrange(57, 68)[0]);
        } else if d == 58 {
            assert(x.subrange(0, 11)[0] != r.subrange(58, 69)[0]);
        } else if d == 59 {
            assert(x.subrange(0, 11)[0] != r.subrange(59, 70)[0]);
        } else if d == 60 {
            assert(x.subrange(0, 11)[0] != r.subrange(60, 71)[0]);
        } else if d == 61 {
            assert(x.subrange(0, 11)[0] != r.subrange(61, 72)[0]);
        } else if d == 62 {
            assert(x.subrange(0, 11)[0] != r.subrange(62, 73)[0]);
        } else if d == 63 {
            assert(x.subrange(0, 11)[0] != r.subrange(63, 74)[0]);
        } else if d == 64 {
            assert(x.subrange(0, 11)[1] != r.subrange(64, 75)[1]);
        } else if d == 65 {
            assert(x.subrange(0, 11)[0] != r.subrange(65, 76)[0]);
        } else if d == 66 {
            assert(x.subrange(0, 11)[0] != r.subrange(66, 77)[0]);
        } else if d == 67 {
            assert(x.subrange(0, 11)[0] != r.subrange(67, 78)[0]);
        } else if d == 68 {
            assert(x.subrange(0, 11)[0] != r.subrange(68, 79)[0]);
        } else if d == 69 {
            assert(x.subrange(0, 11)[0] != r.subrange(69, 80)[0]);
        } else if d == 70 {
            assert(x.subrange(0, 11)[0] != r.subrange(70, 81)[0]);
        } else if d == 71 {
            assert(x.subrange(0, 11)[0] != r.subrange(71, 82)[0]);
        } else if d == 72 {
            assert(x.subrange(0, 11)[0] != r.subrange(72, 83)[0]);
        } else if d == 73 {
            assert(x.subrange(0, 11)[1] != r.subrange(73, 84)[1]);
        } else if d == 74 {
            assert(x.subrange(0, 11)[0] != r.subrange(74, 85)[0]);
        } else if d == 75 {
            assert(x.subrange(0, 10)[0] != r.subrange(75, 85)[0]);
        } else if d == 76 {
            assert(x.subrange(0, 9)[0] != r.subrange(76, 85)[0]);
        } else if d == 77 {
            assert(x.subrange(0, 8)[1] != r.subrange(77, 85)[1]);
        } else if d == 78 {
            assert(x.subrange(0, 7)[0] != r.subrange(78, 85)[0]);
        } else if d == 79 {
            assert(x.subrange(0, 6)[0] != r.subrange(79, 85)[0]);
        } else if d == 80 {
            assert(x.subrange(0, 5)[0] != r.subrange(80, 85)[0]);
        } else if d == 81 {
            assert(x.subrange(0, 4)[0] != r.subrange(81, 85)[0]);
        } else if d == 82 {
            assert(x.subrange(0, 3)[0] != r.subrange(82, 85)[0]);
        } else if d == 83 {
            assert(x.subrange(0, 2)[0] != r.subrange(83, 85)[0]);
        } else if d == 84 {
            assert(x.subrange(0, 1)[0] != r.subrange(84, 85)[0]);
        }
    }
}

/// No placement of the `seele` machine pattern next to the `ironclad-gnu` system case agrees with it.
pub proof fn lemma_host_mark_apart_from_os_anchor()
    ensures
        !can_overlap(sub_host_mark(), sub_os_anchor()),
{
    reveal_strlit("| seele-* \\");
    reveal_strlit("\tironclad-gnu*-)\n\t\t;;");
    let x = sub_host_mark();
    let r = sub_os_anchor();
    assert forall|d: int| -x.len() < d < r.len() implies !#[trigger] agree_at(x, r, d) by {
        if d == -10 {
            assert(x.subrange(10, 11)[0] != r.subrange(0, 1)[0]);
        } else if d == -9 {
            assert(x.subrange(9, 11)[0] != r.subrange(0, 2)[0]);
        } else if d == -8 {
            assert(x.subrange(8, 11)[0] != r.subrange(0, 3)[0]);
        } else if d == -7 {
            assert(x.subrange(7, 11)[0] != r.subrange(0, 4)[0]);
        } else if d == -6 {
            assert(x.subrange(6, 11)[0] != r.subrange(0, 5)[0]);
        } else if d == -5 {
            assert(x.subrange(5, 11)[0] != r.subrange(0, 6)[0]);
        } else if d == -4 {
            assert(x.subrange(4, 11)[0] != r.subrange(0, 7)[0]);
        } else if d == -3 {
            assert(x.subrange(3, 11)[0] != r.subrange(0, 8)[0]);
        } else if d == -2 {
            assert(x.subrange(2, 11)[0] != r.subrange(0, 9)[0]);
        } else if d == -1 {
            assert(x.subrange(1, 11)[0] != r.subrange(0, 10)[0]);
        } else if d == 0 {
            assert(x.subrange(0, 11)[0] != r.subrange(0, 11)[0]);
        } else if d == 1 {
            assert(x.subrange(0, 11)[0] != r.subrange(1, 12)[0]);
        } else if d == 2 {
            assert(x.subrange(0, 11)[0] != r.subrange(2, 13)[0]);
        } else if d == 3 {
            assert(x.subrange(0, 11)[0] != r.subrange(3, 14)[0]);
        } else if d == 4 {
            assert(x.subrange(0, 11)[0] != r.subrange(4, 15)[0]);
        } else if d == 5 {
            assert(x.subrange(0, 11)[0] != r.subrange(5, 16)[0]);
        } else if d == 6 {
            assert(x.subrange(0, 11)[0] != r.subrange(6, 17)[0]);
        } else if d == 7 {
            assert(x.subrange(0, 11)[0] != r.subrange(7, 18)[0]);
        } else if d == 8 {
            assert(x.subrange(0, 11)[0] != r.subrange(8, 19)[0]);
        } else if d == 9 {
            assert(x.subrange(0, 11)[0] != r.subrange(9, 20)[0]);
        } else if d == 10 {
            assert(x.subrange(0, 11)[0] != r.subrange(10, 21)[0]);
        } else if d == 11 {
            assert(x.subrange(0, 10)[0] != r.subrange(11, 21)[0]);
        } else if d == 12 {
            assert(x.subrange(0, 9)[0] != r.subrange(12, 21)[0]);
        } else if d == 13 {
            assert(x.subrange(0, 8)[0] != r.subrange(13, 21)[0]);
        } else if d == 14 {
            assert(x.subrange(0, 7)[0] != r.subrange(14, 21)[0]);
        } else if d == 15 {
            assert(x.subrange(0, 6)[0] != r.subrange(15, 21)[0]);
        } else if d == 16 {
            assert(x.subrange(0, 5)[0] != r.subrange(16, 21)[0]);
        } else if d == 17 {
            assert(x.subrange(0, 4)[0] != r.subrange(17, 21)[0]);
        } else if d == 18 {
            assert(x.subrange(0, 3)[0] != r.subrange(18, 21)[0]);
        } else if d == 19 {
            assert(x.subrange(0, 2)[0] != r.subrange(19, 21)[0]);
        } else if d == 20 {
            assert(x.subrange(0, 1)[0] != r.subrange(20, 21)[0]);
        }
    }
}

/// No placement of the start of the `seele` kernel case next to the `ironclad-gnu` system case agrees with it.
pub proof fn lemma_kernel_mark_apart_from_os_anchor()
    ensures
        !can_overlap(sub_kernel_mark(), sub_os_anchor()),
{
    reveal_strlit("\tseele*)");
    reveal_strlit("\tironclad-gnu*-)\n\t\t;;");
    let x = sub_kernel_mark();
    let r = sub_os_anchor();
    assert forall|d: int| -x.len() < d < r.len() implies !#[trigger] agree_at(x, r, d) by {
        if d == -7 {
            assert(x.subrange(7, 8)[0] != r.subrange(0, 1)[0]);
        } else if d == -6 {
            assert(x.subrange(6, 8)[0] != r.subrange(0, 2)[0]);
        } else if d == -5 {
            assert(x.subrange(5, 8)[0] != r.subrange(0, 3)[0]);
        } else if d == -4 {
            assert(x.subrange(4, 8)[0] != r.subrange(0, 4)[0]);
        } else if d == -3 {
            assert(x.subrange(3, 8)[0] != r.subrange(0, 5)[0]);
        } else if d == -2 {
            assert(x.subrange(2, 8)[0] != r.subrange(0, 6)[0]);
        } else if d == -1 {
            assert(x.subrange(1, 8)[0] != r.subrange(0, 7)[0]);
        } else if d == 0 {
            assert(x.subrange(0, 8)[1] != r.subrange(0, 8)[1]);
        } else if d == 1 {
            assert(x.subrange(0, 8)[0] != r.subrange(1, 9)[0]);
        } else if d == 2 {
            assert(x.subrange(0, 8)[0] != r.subrange(2, 10)[0]);
        } else if d == 3 {
            assert(x.subrange(0, 8)[0] != r.subrange(3, 11)[0]);
        } else if d == 4 {
            assert(x.subrange(0, 8)[0] != r.subrange(4, 12)[0]);
        } else if d == 5 {
            assert(x.subrange(0, 8)[0] != r.subrange(5, 13)[0]);
        } else if d == 6 {
            assert(x.subrange(0, 8)[0] != r.subrange(6, 14)[0]);
        } else if d == 7 {
            assert(x.subrange(0, 8)[0] != r.subrange(7, 15)[0]);
        } else if d == 8 {
            assert(x.subrange(0, 8)[0] != r.subrange(8, 16)[0]);
        } else if d == 9 {
            assert(x.subrange(0, 8)[0] != r.subrange(9, 17)[0]);
        } else if d == 10 {
            assert(x.subrange(0, 8)[0] != r.subrange(10, 18)[0]);
        } else if d == 11 {
            assert(x.subrange(0, 8)[0] != r.subrange(11, 19)[0]);
        } else if d == 12 {
            assert(x.subrange(0, 8)[0] != r.subrange(12, 20)[0]);
        } else if d == 13 {
            assert(x.subrange(0, 8)[0] != r.subrange(13, 21)[0]);
        } else if d == 14 {
            assert(x.subrange(0, 7)[0] != r.subrange(14, 21)[0]);
        } else if d == 15 {
            assert(x.subrange(0, 6)[0] != r.subrange(15, 21)[0]);
        } else if d == 16 {
            assert(x.subrange(0, 5)[0] != r.subrange(16, 21)[0]);
        } else if d == 17 {
            assert(x.subrange(0, 4)[1] != r.subrange(17, 21)[1]);
        } else if d == 18 {
            assert(x.subrange(0, 3)[1] != r.subrange(18, 21)[1]);
        } else if d == 19 {
            assert(x.subrange(0, 2)[0] != r.subrange(19, 21)[0]);
        } else if d == 20 {
            assert(x.subrange(0, 1)[0] != r.subrange(20, 21)[0]);
        }
    }
}

/// No placement of the `ironclad` machine line next to the kernel cases agrees with it.
pub proof fn lemma_host_anchor_apart_from_kernel_entry()
    ensures
        !can_overlap(sub_host_anchor(), sub_kernel_entry()),
{
    reveal_strlit("| ironclad-* \\");
    reveal_strlit("\tironclad*)\n\t\tkernel=ironclad\n\t\tos=`echo \"$basic_os\" | sed -e 's|ironclad|gnu|'`\n\t\t;;\n\tseele*)\n\t\tkernel=seele\n\t\tos=`echo \"$basic_os\" | sed -e 's|seele|gnu|'`\n\t\t;;");
    let x = sub_host_anchor();
    let r = sub_kernel_entry();
    assert forall|d: int| -x.len() < d < r.len() implies !#[trigger] agree_at(x, r, d) by {
        if d == -13 {
            assert(x.subrange(13, 14)[0] != r.subrange(0, 1)[0]);
        } else if d == -12 {
            assert(x.subrange(12, 14)[0] != r.subrange(0, 2)[0]);
        } else if d == -11 {
            assert(x.subrange(11, 14)[0] != r.subrange(0, 3)[0]);
        } else if d == -10 {
            assert(x.subrange(10, 14)[0] != r.subrange(0, 4)[0]);
        } else if d == -9 {
            assert(x.subrange(9, 14)[0] != r.subrange(0, 5)[0]);
        } else if d == -8 {
            assert(x.subrange(8, 14)[0] != r.subrange(0, 6)[0]);
        } else if d == -7 {
            assert(x.subrange(7, 14)[0] != r.subrange(0, 7)[0]);
        } else if d == -6 {
            assert(x.subrange(6, 14)[0] != r.subrange(0, 8)[0]);
        } else if d == -5 {
            assert(x.subrange(5, 14)[0] != r.subrange(0, 9)[0]);
        } else if d == -4 {
            assert(x.subrange(4, 14)[0] != r.subrange(0, 10)[0]);
        } else if d == -3 {
            assert(x.subrange(3, 14)[0] != r.subrange(0, 11)[0]);
        } else if d == -2 {
            assert(x.subrange(2, 14)[0] != r.subrange(0, 12)[0]);
        } else if d == -1 {
            assert(x.subrange(1, 14)[0] != r.subrange(0, 13)[0]);
        } else if d == 0 {
            assert(x.subrange(0, 14)[0] != r.subrange(0, 14)[0]);
        } else if d == 1 {
            assert(x.subrange(0, 14)[0] != r.subrange(1, 15)[0]);
        } else if d == 2 {
            assert(x.subrange(0, 14)[0] != r.subrange(2, 16)[0]);
        } else if d == 3 {
            assert(x.subrange(0, 14)[0] != r.subrange(3, 17)[0]);
        } else if d == 4 {
            assert(x.subrange(0, 14)[0] != r.subrange(4, 18)[0]);
        } else if d == 5 {
            assert(x.subrange(0, 14)[0] != r.subrange(5, 19)[0]);
        } else if d == 6 {
            assert(x.subrange(0, 14)[0] != r.subrange(6, 20)[0]);
        } else if d == 7 {
            assert(x.subrange(0, 14)[0] != r.subrange(7, 21)[0]);
        } else if d == 8 {
            assert(x.subrange(0, 14)[0] != r.subrange(8, 22)[0]);
        } else if d == 9 {
            assert(x.subrange(0, 14)[0] != r.subrange(9, 23)[0]);
        } else if d == 10 {
            assert(x.subrange(0, 14)[0] != r.subrange(10, 24)[0]);
        } else if d == 11 {
            assert(x.subrange(0, 14)[0] != r.subrange(11, 25)[0]);
        } else if d == 12 {
            assert(x.subrange(0, 14)[0] != r.subrange(12, 26)[0]);
        } else if d == 13 {
            assert(x.subrange(0, 14)[0] != r.subrange(13, 27)[0]);
        } else if d == 14 {
            assert(x.subrange(0, 14)[0] != r.subrange(14, 28)[0]);
        } else if d == 15 {
            assert(x.subrange(0, 14)[0] != r.subrange(15, 29)[0]);
        } else if d == 16 {
            assert(x.subrange(0, 14)[0] != r.subrange(16, 30)[0]);
        } else if d == 17 {
            assert(x.subrange(0, 14)[0] != r.subrange(17, 31)[0]);
        } else if d == 18 {
            assert(x.subrange(0, 14)[0] != r.subrange(18, 32)[0]);
        } else if d == 19 {
            assert(x.subrange(0, 14)[0] != r.subrange(19, 33)[0]);
        } else if d == 20 {
            assert(x.subrange(0, 14)[0] != r.subrange(20, 34)[0]);
        } else if d == 21 {
            assert(x.subrange(0, 14)[0] != r.subrange(21, 35)[0]);
        } else if d == 22 {
            assert(x.subrange(0, 14)[0] != r.subrange(22, 36)[0]);
        } else if d == 23 {
            assert(x.subrange(0, 14)[0] != r.subrange(23, 37)[0]);
        } else if d == 24 {
            assert(x.subrange(0, 14)[0] != r.subrange(24, 38)[0]);
        } else if d == 25 {
            assert(x.subrange(0, 14)[0] != r.subrange(25, 39)[0]);
        } else if d == 26 {
            assert(x.subrange(0, 14)[0] != r.subrange(26, 40)[0]);
        } else if d == 27 {
            assert(x.subrange(0, 14)[0] != r.subrange(27, 41)[0]);
        } else if d == 28 {
            assert(x.subrange(0, 14)[0] != r.subrange(28, 42)[0]);
        } else if d == 29 {
            assert(x.subrange(0, 14)[0] != r.subrange(29, 43)[0]);
        } else if d == 30 {
            assert(x.subrange(0, 14)[0] != r.subrange(30, 44)[0]);
        } else if d == 31 {
            assert(x.subrange(0, 14)[0] != r.subrange(31, 45)[0]);
        } else if d == 32 {
            assert(x.subrange(0, 14)[0] != r.subrange(32, 46)[0]);
        } else if d == 33 {
            assert(x.subrange(0, 14)[0] != r.subrange(33, 47)[0]);
        } else if d == 34 {
            assert(x.subrange(0, 14)[0] != r.subrange(34, 48)[0]);
        } else if d == 35 {
            assert(x.subrange(0, 14)[0] != r.subrange(35, 49)[0]);
        } else if d == 36 {
            assert(x.subrange(0, 14)[0] != r.subrange(36, 50)[0]);
        } else if d == 37 {
            assert(x.subrange(0, 14)[0] != r.subrange(37, 51)[0]);
        } else if d == 38 {
            assert(x.subrange(0, 14)[0] != r.subrange(38, 52)[0]);
        } else if d == 39 {
            assert(x.subrange(0, 14)[0] != r.subrange(39, 53)[0]);
        } else if d == 40 {
            assert(x.subrange(0, 14)[0] != r.subrange(40, 54)[0]);
        } else if d == 41 {
            assert(x.subrange(0, 14)[0] != r.subrange(41, 55)[0]);
        } else if d == 42 {
            assert(x.subrange(0, 14)[0] != r.subrange(42, 56)[0]);
        } else if d == 43 {
            assert(x.subrange(0, 14)[0] != r.subrange(43, 57)[0]);
        } else if d == 44 {
            assert(x.subrange(0, 14)[0] != r.subrange(44, 58)[0]);
        } else if d == 45 {
            assert(x.subrange(0, 14)[0] != r.subrange(45, 59)[0]);
        } else if d == 46 {
            assert(x.subrange(0, 14)[0] != r.subrange(46, 60)[0]);
        } else if d == 47 {
            assert(x.subrange(0, 14)[0] != r.subrange(47, 61)[0]);
        } else if d == 48 {
            assert(x.subrange(0, 14)[0] != r.subrange(48, 62)[0]);
        } else if d == 49 {
            assert(x.subrange(0, 14)[0] != r.subrange(49, 63)[0]);
        } else if d == 50 {
            assert(x.subrange(0, 14)[0] != r.subrange(50, 64)[0]);
        } else if d == 51 {
            assert(x.subrange(0, 14)[0] != r.subrange(51, 65)[0]);
        } else if d == 52 {
            assert(x.subrange(0, 14)[0] != r.subrange(52, 66)[0]);
        } else if d == 53 {
            assert(x.subrange(0, 14)[2] != r.subrange(53, 67)[2]);
        } else if d == 54 {
            assert(x.subrange(0, 14)[0] != r.subrange(54, 68)[0]);
        } else if d == 55 {
            assert(x.subrange(0, 14)[0] != r.subrange(55, 69)[0]);
        } else if d == 56 {
            assert(x.subrange(0, 14)[0] != r.subrange(56, 70)[0]);
        } else if d == 57 {
            assert(x.subrange(0, 14)[0] != r.subrange(57, 71)[0]);
        } else if d == 58 {
            assert(x.subrange(0, 14)[0] != r.subrange(58, 72)[0]);
        } else if d == 59 {
            assert(x.subrange(0, 14)[0] != r.subrange(59, 73)[0]);
        } else if d == 60 {
            assert(x.subrange(0, 14)[0] != r.subrange(60, 74)[0]);
        } else if d == 61 {
            assert(x.subrange(0, 14)[0] != r.subrange(61, 75)[0]);
        } else if d == 62 {
            assert(x.subrange(0, 14)[0] != r.subrange(62, 76)[0]);
        } else if d == 63 {
            assert(x.subrange(0, 14)[0] != r.subrange(63, 77)[0]);
        } else if d == 64 {
            assert(x.subrange(0, 14)[1] != r.subrange(64, 78)[1]);
        } else if d == 65 {
            assert(x.subrange(0, 14)[0] != r.subrange(65, 79)[0]);
        } else if d == 66 {
            assert(x.subrange(0, 14)[0] != r.subrange(66, 80)[0]);
        } else if d == 67 {
            assert(x.subrange(0, 14)[0] != r.subrange(67, 81)[0]);
        } else if d == 68 {
            assert(x.subrange(0, 14)[0] != r.subrange(68, 82)[0]);
        } else if d == 69 {
            assert(x.subrange(0, 14)[0] != r.subrange(69, 83)[0]);
        } else if d == 70 {
            assert(x.subrange(0, 14)[0] != r.subrange(70, 84)[0]);
        } else if d == 71 {
            assert(x.subrange(0, 14)[0] != r.subrange(71, 85)[0]);
        } else if d == 72 {
            assert(x.subrange(0, 14)[0] != r.subrange(72, 86)[0]);
        } else if d == 73 {
            assert(x.subrange(0, 14)[1] != r.subrange(73, 87)[1]);
        } else if d == 74 {
            assert(x.subrange(0, 14)[0] != r.subrange(74, 88)[0]);
        } else if d == 75 {
            assert(x.subrange(0, 14)[0] != r.subrange(75, 89)[0]);
        } else if d == 76 {
            assert(x.subrange(0, 14)[0] != r.subrange(76, 90)[0]);
        } else if d == 77 {
            assert(x.subrange(0, 14)[1] != r.subrange(77, 91)[1]);
        } else if d == 78 {
            assert(x.subrange(0, 14)[0] != r.subrange(78, 92)[0]);
        } else if d == 79 {
            assert(x.subrange(0, 14)[0] != r.subrange(79, 93)[0]);
        } else if d == 80 {
            assert(x.subrange(0, 14)[0] != r.subrange(80, 94)[0]);
        } else if d == 81 {
            assert(x.subrange(0, 14)[0] != r.subrange(81, 95)[0]);
        } else if d == 82 {
            assert(x.subrange(0, 14)[0] != r.subrange(82, 96)[0]);
        } else if d == 83 {
            assert(x.subrange(0, 14)[0] != r.subrange(83, 97)[0]);
        } else if d == 84 {
            assert(x.subrange(0, 14)[0] != r.subrange(84, 98)[0]);
        } else if d == 85 {
            assert(x.subrange(0, 14)[0] != r.subrange(85, 99)[0]);
        } else if d == 86 {
            assert(x.subrange(0, 14)[0] != r.subrange(86, 100)[0]);
        } else if d == 87 {
            assert(x.subrange(0, 14)[0] != r.subrange(87, 101)[0]);
        } else if d == 88 {
            assert(x.subrange(0, 14)[0] != r.subrange(88, 102)[0]);
        } else if d == 89 {
            assert(x.subrange(0, 14)[0] != r.subrange(89, 103)[0]);
        } else if d == 90 {
            assert(x.subrange(0, 14)[0] != r.subrange(90, 104)[0]);
        } else if d == 91 {
            assert(x.subrange(0, 14)[0] != r.subrange(91, 105)[0]);
        } else if d == 92 {
            assert(x.subrange(0, 14)[0] != r.subrange(92, 106)[0]);
        } else if d == 93 {
            assert(x.subrange(0, 14)[0] != r.subrange(93, 107)[0]);
        } else if d == 94 {
            assert(x.subrange(0, 14)[0] != r.subrange(94, 108)[0]);
        } else if d == 95 {
            assert(x.subrange(0, 14)[0] != r.subrange(95, 109)[0]);
        } else if d == 96 {
            assert(x.subrange(0, 14)[0] != r.subrange(96, 110)[0]);
        } else if d == 97 {
            assert(x.subrange(0, 14)[0] != r.subrange(97, 111)[0]);
        } else if d == 98 {
            assert(x.subrange(0, 14)[0] != r.subrange(98, 112)[0]);
        } else if d == 99 {
            assert(x.subrange(0, 14)[0] != r.subrange(99, 113)[0]);
        } else if d == 100 {
            assert(x.subrange(0, 14)[0] != r.subrange(100, 114)[0]);
        } else if d == 101 {
            assert(x.subrange(0, 14)[0] != r.subrange(101, 115)[0]);
        } else if d == 102 {
            assert(x.subrange(0, 14)[0] != r.subrange(102, 116)[0]);
        } else if d == 103 {
            assert(x.subrange(0, 14)[0] != r.subrange(103, 117)[0]);
        } else if d == 104 {
            assert(x.subrange(0, 14)[0] != r.subrange(104, 118)[0]);
        } else if d == 105 {
            assert(x.subrange(0, 14)[0] != r.subrange(105, 119)[0]);
        } else if d == 106 {
            assert(x.subrange(0, 14)[0] != r.subrange(106, 120)[0]);
        } else if d == 107 {
            assert(x.subrange(0, 14)[0] != r.subrange(107, 121)[0]);
        } else if d == 108 {
            assert(x.subrange(0, 14)[0] != r.subrange(108, 122)[0]);
        } else if d == 109 {
            assert(x.subrange(0, 14)[0] != r.subrange(109, 123)[0]);
        } else if d == 110 {
            assert(x.subrange(0, 14)[0] != r.subrange(110, 124)[0]);
        } else if d == 111 {
            assert(x.subrange(0, 14)[0] != r.subrange(111, 125)[0]);
        } else if d == 112 {
            assert(x.subrange(0, 14)[0] != r.subrange(112, 126)[0]);
        } else if d == 113 {
            assert(x.subrange(0, 14)[0] != r.subrange(113, 127)[0]);
        } else if d == 114 {
            assert(x.subrange(0, 14)[0] != r.subrange(114, 128)[0]);
        } else if d == 115 {
            assert(x.subrange(0, 14)[0] != r.subrange(115, 129)[0]);
        } else if d == 116 {
            assert(x.subrange(0, 14)[0] != r.subrange(116, 130)[0]);
        } else if d == 117 {
            assert(x.subrange(0, 14)[0] != r.subrange(117, 131)[0]);
        } else if d == 118 {
            assert(x.subrange(0, 14)[0] != r.subrange(118, 132)[0]);
        } else if d == 119 {
            assert(x.subrange(0, 14)[0] != r.subrange(119, 133)[0]);
        } else if d == 120 {
            assert(x.subrange(0, 14)[0] != r.subrange(120, 134)[0]);
        } else if d == 121 {
            assert(x.subrange(0, 14)[0] != r.subrange(121, 135)[0]);
        } else if d == 122 {
            assert(x.subrange(0, 14)[0] != r.subrange(122, 136)[0]);
        } else if d == 123 {
            assert(x.subrange(0, 14)[0] != r.subrange(123, 137)[0]);
        } else if d == 124 {
            assert(x.subrange(0, 14)[0] != r.subrange(124, 138)[0]);
        } else if d == 125 {
            assert(x.subrange(0, 14)[0] != r.subrange(125, 139)[0]);
        } else if d == 126 {
            assert(x.subrange(0, 14)[0] != r.subrange(126, 140)[0]);
        } else if d == 127 {
            assert(x.subrange(0, 14)[0] != r.subrange(127, 141)[0]);
        } else if d == 128 {
            assert(x.subrange(0, 14)[0] != r.subrange(128, 142)[0]);
        } else if d == 129 {
            assert(x.subrange(0, 14)[0] != r.subrange(129, 143)[0]);
        } else if d == 130 {
            assert(x.subrange(0, 14)[0] != r.subrange(130, 144)[0]);
        } else if d == 131 {
            assert(x.subrange(0, 14)[0] != r.subrange(131, 145)[0]);
        } else if d == 132 {
            assert(x.subrange(0, 14)[0] != r.subrange(132, 146)[0]);
        } else if d == 133 {
            assert(x.subrange(0, 14)[2] != r.subrange(133, 147)[2]);
        } else if d == 134 {
            assert(x.subrange(0, 14)[0] != r.subrange(134, 148)[0]);
        } else if d == 135 {
            assert(x.subrange(0, 14)[0] != r.subrange(135, 149)[0]);
        } else if d == 136 {
            assert(x.subrange(0, 14)[0] != r.subrange(136, 150)[0]);
        } else if d == 137 {
            assert(x.subrange(0, 14)[0] != r.subrange(137, 151)[0]);
        } else if d == 138 {
            assert(x.subrange(0, 14)[0] != r.subrange(138, 152)[0]);
        } else if d == 139 {
            assert(x.subrange(0, 14)[0] != r.subrange(139, 153)[0]);
        } else if d == 140 {
            assert(x.subrange(0, 14)[0] != r.subrange(140, 154)[0]);
        } else if d == 141 {
            assert(x.subrange(0, 14)[0] != r.subrange(141, 155)[0]);
        } else if d == 142 {
            assert(x.subrange(0, 14)[0] != r.subrange(142, 156)[0]);
        } else if d == 143 {
            assert(x.subrange(0, 14)[0] != r.subrange(143, 157)[0]);
        } else if d == 144 {
            assert(x.subrange(0, 14)[1] != r.subrange(144, 158)[1]);
        } else if d == 145 {
            assert(x.subrange(0, 14)[0] != r.subrange(145, 159)[0]);
        } else if d == 146 {
            assert(x.subrange(0, 14)[0] != r.subrange(146, 160)[0]);
        } else if d == 147 {
            assert(x.subrange(0, 14)[0] != r.subrange(147, 161)[0]);
        } else if d == 148 {
            assert(x.subrange(0, 14)[0] != r.subrange(148, 162)[0]);
        } else if d == 149 {
            assert(x.subrange(0, 13)[0] != r.subrange(149, 162)[0]);
        } else if d == 150 {
            assert(x.subrange(0, 12)[1] != r.subrange(150, 162)[1]);
        } else if d == 151 {
            assert(x.subrange(0, 11)[0] != r.subrange(151, 162)[0]);
        } else if d == 152 {
            assert(x.subrange(0, 10)[0] != r.subrange(152, 162)[0]);
        } else if d == 153 {
            assert(x.subrange(0, 9)[0] != r.subrange(153, 162)[0]);
        } else if d == 154 {
            assert(x.subrange(0, 8)[1] != r.subrange(154, 162)[1]);
        } else if d == 155 {
            assert(x.subrange(0, 7)[0] != r.subrange(155, 162)[0]);
        } else if d == 156 {
            assert(x.subrange(0, 6)[0] != r.subrange(156, 162)[0]);
        } else if d == 157 {
            assert(x.subrange(0, 5)[0] != r.subrange(157, 162)[0]);
        } else if d == 158 {
            assert(x.subrange(0, 4)[0] != r.subrange(158, 162)[0]);
        } else if d == 159 {
            assert(x.subrange(0, 3)[0] != r.subrange(159, 162)[0]);
        } else if d == 160 {
            assert(x.subrange(0, 2)[0] != r.subrange(160, 162)[0]);
        } else if d == 161 {
            assert(x.subrange(0, 1)[0] != r.subrange(161, 162)[0]);
        }
    }
}

/// No placement of the `ironclad` machine line next to the system cases agrees with it.
pub proof fn lemma_host_anchor_apart_from_os_entry()
    ensures
        !can_overlap(sub_host_anchor(), sub_os_entry()),
{
    reveal_strlit("| ironclad-* \\");
    reveal_strlit("\tironclad-gnu*-)\n\t\t;;\n\tseele-gnu*-)\n\t\t;;");
    let x = sub_host_anchor();
    let r = sub_os_entry();
    assert forall|d: int| -x.len() < d < r.len() implies !#[trigger] agree_at(x, r, d) by {
        if d == -13 {
            assert(x.subrange(13, 14)[0] != r.subrange(0, 1)[0]);
        } else if d == -12 {
            assert(x.subrange(12, 14)[0] != r.subrange(0, 2)[0]);
        } else if d == -11 {
            assert(x.subrange(11, 14)[0] != r.subrange(0, 3)[0]);
        } else if d == -10 {
            assert(x.subrange(10, 14)[0] != r.subrange(0, 4)[0]);
        } else if d == -9 {
            assert(x.subrange(9, 14)[0] != r.subrange(0, 5)[0]);
        } else if d == -8 {
            assert(x.subrange(8, 14)[0] != r.subrange(0, 6)[0]);
        } else if d == -7 {
            assert(x.subrange(7, 14)[0] != r.subrange(0, 7)[0]);
        } else if d == -6 {
            assert(x.subrange(6, 14)[0] != r.subrange(0, 8)[0]);
        } else if d == -5 {
            assert(x.subrange(5, 14)[0] != r.subrange(0, 9)[0]);
        } else if d == -4 {
            assert(x.subrange(4, 14)[0] != r.subrange(0, 10)[0]);
        } else if d == -3 {
            assert(x.subrange(3, 14)[0] != r.subrange(0, 11)[0]);
        } else if d == -2 {
            assert(x.subrange(2, 14)[0] != r.subrange(0, 12)[0]);
        } else if d == -1 {
            assert(x.subrange(1, 14)[0] != r.subrange(0, 13)[0]);
        } else if d == 0 {
            assert(x.subrange(0, 14)[0] != r.subrange(0, 14)[0]);
        } else if d == 1 {
            assert(x.subrange(0, 14)[0] != r.subrange(1, 15)[0]);
        } else if d == 2 {
            assert(x.subrange(0, 14)[0] != r.subrange(2, 16)[0]);
        } else if d == 3 {
            assert(x.subrange(0, 14)[0] != r.subrange(3, 17)[0]);
        } else if d == 4 {
            assert(x.subrange(0, 14)[0] != r.subrange(4, 18)[0]);
        } else if d == 5 {
            assert(x.subrange(0, 14)[0] != r.subrange(5, 19)[0]);
        } else if d == 6 {
            assert(x.subrange(0, 14)[0] != r.subrange(6, 20)[0]);
        } else if d == 7 {
            assert(x.subrange(0, 14)[0] != r.subrange(7, 21)[0]);
        } else if d == 8 {
            assert(x.subrange(0, 14)[0] != r.subrange(8, 22)[0]);
        } else if d == 9 {
            assert(x.subrange(0, 14)[0] != r.subrange(9, 23)[0]);
        } else if d == 10 {
            assert(x.subrange(0, 14)[0] != r.subrange(10, 24)[0]);
        } else if d == 11 {
            assert(x.subrange(0, 14)[0] != r.subrange(11, 25)[0]);
        } else if d == 12 {
            assert(x.subrange(0, 14)[0] != r.subrange(12, 26)[0]);
        } else if d == 13 {
            assert(x.subrange(0, 14)[0] != r.subrange(13, 27)[0]);
        } else if d == 14 {
            assert(x.subrange(0, 14)[0] != r.subrange(14, 28)[0]);
        } else if d == 15 {
            assert(x.subrange(0, 14)[0] != r.subrange(15, 29)[0]);
        } else if d == 16 {
            assert(x.subrange(0, 14)[0] != r.subrange(16, 30)[0]);
        } else if d == 17 {
            assert(x.subrange(0, 14)[0] != r.subrange(17, 31)[0]);
        } else if d == 18 {
            assert(x.subrange(0, 14)[0] != r.subrange(18, 32)[0]);
        } else if d == 19 {
            assert(x.subrange(0, 14)[0] != r.subrange(19, 33)[0]);
        } else if d == 20 {
            assert(x.subrange(0, 14)[0] != r.subrange(20, 34)[0]);
        } else if d == 21 {
            assert(x.subrange(0, 14)[0] != r.subrange(21, 35)[0]);
        } else if d == 22 {
            assert(x.subrange(0, 14)[0] != r.subrange(22, 36)[0]);
        } else if d == 23 {
            assert(x.subrange(0, 14)[0] != r.subrange(23, 37)[0]);
        } else if d == 24 {
            assert(x.subrange(0, 14)[0] != r.subrange(24, 38)[0]);
        } else if d == 25 {
            assert(x.subrange(0, 14)[0] != r.subrange(25, 39)[0]);
        } else if d == 26 {
            assert(x.subrange(0, 14)[0] != r.subrange(26, 40)[0]);
        } else if d == 27 {
            assert(x.subrange(0, 13)[0] != r.subrange(27, 40)[0]);
        } else if d == 28 {
            assert(x.subrange(0, 12)[0] != r.subrange(28, 40)[0]);
        } else if d == 29 {
            assert(x.subrange(0, 11)[0] != r.subrange(29, 40)[0]);
        } else if d == 30 {
            assert(x.subrange(0, 10)[0] != r.subrange(30, 40)[0]);
        } else if d == 31 {
            assert(x.subrange(0, 9)[0] != r.subrange(31, 40)[0]);
        } else if d == 32 {
            assert(x.subrange(0, 8)[0] != r.subrange(32, 40)[0]);
        } else if d == 33 {
            assert(x.subrange(0, 7)[0] != r.subrange(33, 40)[0]);
        } else if d == 34 {
            assert(x.subrange(0, 6)[0] != r.subrange(34, 40)[0]);
        } else if d == 35 {
            assert(x.subrange(0, 5)[0] != r.subrange(35, 40)[0]);
        } else if d == 36 {
            assert(x.subrange(0, 4)[0] != r.subrange(36, 40)[0]);
        } else if d == 37 {
            assert(x.subrange(0, 3)[0] != r.subrange(37, 40)[0]);
        } else if d == 38 {
            assert(x.subrange(0, 2)[0] != r.subrange(38, 40)[0]);
        } else if d == 39 {
            assert(x.subrange(0, 1)[0] != r.subrange(39, 40)[0]);
        }
    }
}

/// No placement of the `ironclad` kernel case next to the system cases agrees with it.
pub proof fn lemma_kernel_anchor_apart_from_os_entry()
    ensures
        !can_overlap(sub_kernel_anchor(), sub_os_entry()),
{
    reveal_strlit("\tironclad*)\n\t\tkernel=ironclad\n\t\tos=`echo \"$basic_os\" | sed -e 's|ironclad|gnu|'`\n\t\t;;");
    reveal_strlit("\tironclad-gnu*-)\n\t\t;;\n\tseele-gnu*-)\n\t\t;;");
    let x = sub_kernel_anchor();
    let r = sub_os_entry();
    assert forall|d: int| -x.len() < d < r.len() implies !#[trigger] agree_at(x, r, d) by {
        if d == -84 {
            assert(x.subrange(84, 85)[0] != r.subrange(0, 1)[0]);
        } else if d == -83 {
            assert(x.subrange(83, 85)[0] != r.subrange(0, 2)[0]);
        } else if d == -82 {
            assert(x.subrange(82, 85)[1] != r.subrange(0, 3)[1]);
        } else if d == -81 {
            assert(x.subrange(81, 85)[1] != r.subrange(0, 4)[1]);
        } else if d == -80 {
            assert(x.subrange(80, 85)[0] != r.subrange(0, 5)[0]);
        } else if d == -79 {
            assert(x.subrange(79, 85)[0] != r.subrange(0, 6)[0]);
        } else if d == -78 {
            assert(x.subrange(78, 85)[0] != r.subrange(0, 7)[0]);
        } else if d == -77 {
            assert(x.subrange(77, 85)[0] != r.subrange(0, 8)[0]);
        } else if d == -76 {
            assert(x.subrange(76, 85)[0] != r.subrange(0, 9)[0]);
        } else if d == -75 {
            assert(x.subrange(75, 85)[0] != r.subrange(0, 10)[0]);
        } else if d == -74 {
            assert(x.subrange(74, 85)[0] != r.subrange(0, 11)[0]);
        } else if d == -73 {
            assert(x.subrange(73, 85)[0] != r.subrange(0, 12)[0]);
        } else if d == -72 {
            assert(x.subrange(72, 85)[0] != r.subrange(0, 13)[0]);
        } else if d == -71 {
            assert(x.subrange(71, 85)[0] != r.subrange(0, 14)[0]);
        } else if d == -70 {
            assert(x.subrange(70, 85)[0] != r.subrange(0, 15)[0]);
        } else if d == -69 {
            assert(x.subrange(69, 85)[0] != r.subrange(0, 16)[0]);
        } else if d == -68 {
            assert(x.subrange(68, 85)[0] != r.subrange(0, 17)[0]);
        } else if d == -67 {
            assert(x.subrange(67, 85)[0] != r.subrange(0, 18)[0]);
        } else if d == -66 {
            assert(x.subrange(66, 85)[0] != r.subrange(0, 19)[0]);
        } else if d == -65 {
            assert(x.subrange(65, 85)[0] != r.subrange(0, 20)[0]);
        } else if d == -64 {
            assert(x.subrange(64, 85)[0] != r.subrange(0, 21)[0]);
        } else if d == -63 {
            assert(x.subrange(63, 85)[0] != r.subrange(0, 22)[0]);
        } else if d == -62 {
            assert(x.subrange(62, 85)[0] != r.subrange(0, 23)[0]);
        } else if d == -61 {
            assert(x.subrange(61, 85)[0] != r.subrange(0, 24)[0]);
        } else if d == -60 {
            assert(x.subrange(60, 85)[0] != r.subrange(0, 25)[0]);
        } else if d == -59 {
            assert(x.subrange(59, 85)[0] != r.subrange(0, 26)[0]);
        } else if d == -58 {
            assert(x.subrange(58, 85)[0] != r.subrange(0, 27)[0]);
        } else if d == -57 {
            assert(x.subrange(57, 85)[0] != r.subrange(0, 28)[0]);
        } else if d == -56 {
            assert(x.subrange(56, 85)[0] != r.subrange(0, 29)[0]);
        } else if d == -55 {
            assert(x.subrange(55, 85)[0] != r.subrange(0, 30)[0]);
        } else if d == -54 {
            assert(x.subrange(54, 85)[0] != r.subrange(0, 31)[0]);
        } else if d == -53 {
            assert(x.subrange(53, 85)[0] != r.subrange(0, 32)[0]);
        } else if d == -52 {
            assert(x.subrange(52, 85)[0] != r.subrange(0, 33)[0]);
        } else if d == -51 {
            assert(x.subrange(51, 85)[0] != r.subrange(0, 34)[0]);
        } else if d == -50 {
            assert(x.subrange(50, 85)[0] != r.subrange(0, 35)[0]);
        } else if d == -49 {
            assert(x.subrange(49, 85)[0] != r.subrange(0, 36)[0]);
        } else if d == -48 {
            assert(x.subrange(48, 85)[0] != r.subrange(0, 37)[0]);
        } else if d == -47 {
            assert(x.subrange(47, 85)[0] != r.subrange(0, 38)[0]);
        } else if d == -46 {
            assert(x.subrange(46, 85)[0] != r.subrange(0, 39)[0]);
        } else if d == -45 {
            assert(x.subrange(45, 85)[0] != r.subrange(0, 40)[0]);
        } else if d == -44 {
            assert(x.subrange(44, 84)[0] != r.subrange(0, 40)[0]);
        } else if d == -43 {
            assert(x.subrange(43, 83)[0] != r.subrange(0, 40)[0]);
        } else if d == -42 {
            assert(x.subrange(42, 82)[0] != r.subrange(0, 40)[0]);
        } else if d == -41 {
            assert(x.subrange(41, 81)[0] != r.subrange(0, 40)[0]);
        } else if d == -40 {
            assert(x.subrange(40, 80)[0] != r.subrange(0, 40)[0]);
        } else if d == -39 {
            assert(x.subrange(39, 79)[0] != r.subrange(0, 40)[0]);
        } else if d == -38 {
            assert(x.subrange(38, 78)[0] != r.subrange(0, 40)[0]);
        } else if d == -37 {
            assert(x.subrange(37, 77)[0] != r.subrange(0, 40)[0]);
        } else if d == -36 {
            assert(x.subrange(36, 76)[0] != r.subrange(0, 40)[0]);
        } else if d == -35 {
            assert(x.subrange(35, 75)[0] != r.subrange(0, 40)[0]);
        } else if d == -34 {
            assert(x.subrange(34, 74)[0] != r.subrange(0, 40)[0]);
        } else if d == -33 {
            assert(x.subrange(33, 73)[0] != r.subrange(0, 40)[0]);
        } else if d == -32 {
            assert(x.subrange(32, 72)[0] != r.subrange(0, 40)[0]);
        } else if d == -31 {
            assert(x.subrange(31, 71)[1] != r.subrange(0, 40)[1]);
        } else if d == -30 {
            assert(x.subrange(30, 70)[1] != r.subrange(0, 40)[1]);
        } else if d == -29 {
            assert(x.subrange(29, 69)[0] != r.subrange(0, 40)[0]);
        } else if d == -28 {
            assert(x.subrange(28, 68)[0] != r.subrange(0, 40)[0]);
        } else if d == -27 {
            assert(x.subrange(27, 67)[0] != r.subrange(0, 40)[0]);
        } else if d == -26 {
            assert(x.subrange(26, 66)[0] != r.subrange(0, 40)[0]);
        } else if d == -25 {
            assert(x.subrange(25, 65)[0] != r.subrange(0, 40)[0]);
        } else if d == -24 {
            assert(x.subrange(24, 64)[0] != r.subrange(0, 40)[0]);
        } else if d == -23 {
            assert(x.subrange(23, 63)[0] != r.subrange(0, 40)[0]);
        } else if d == -22 {
            assert(x.subrange(22, 62)[0] != r.subrange(0, 40)[0]);
        } else if d == -21 {
            assert(x.subrange(21, 61)[0] != r.subrange(0, 40)[0]);
        } else if d == -20 {
            assert(x.subrange(20, 60)[0] != r.subrange(0, 40)[0]);
        } else if d == -19 {
            assert(x.subrange(19, 59)[0] != r.subrange(0, 40)[0]);
        } else if d == -18 {
            assert(x.subrange(18, 58)[0] != r.subrange(0, 40)[0]);
        } else if d == -17 {
            assert(x.subrange(17, 57)[0] != r.subrange(0, 40)[0]);
        } else if d == -16 {
            assert(x.subrange(16, 56)[0] != r.subrange(0, 40)[0]);
        } else if d == -15 {
            assert(x.subrange(15, 55)[0] != r.subrange(0, 40)[0]);
        } else if d == -14 {
            assert(x.subrange(14, 54)[0] != r.subrange(0, 40)[0]);
        } else if d == -13 {
            assert(x.subrange(13, 53)[1] != r.subrange(0, 40)[1]);
        } else if d == -12 {
            assert(x.subrange(12, 52)[1] != r.subrange(0, 40)[1]);
        } else if d == -11 {
            assert(x.subrange(11, 51)[0] != r.subrange(0, 40)[0]);
        } else if d == -10 {
            assert(x.subrange(10, 50)[0] != r.subrange(0, 40)[0]);
        } else if d == -9 {
            assert(x.subrange(9, 49)[0] != r.subrange(0, 40)[0]);
        } else if d == -8 {
            assert(x.subrange(8, 48)[0] != r.subrange(0, 40)[0]);
        } else if d == -7 {
            assert(x.subrange(7, 47)[0] != r.subrange(0, 40)[0]);
        } else if d == -6 {
            assert(x.subrange(6, 46)[0] != r.subrange(0, 40)[0]);
        } else if d == -5 {
            assert(x.subrange(5, 45)[0] != r.subrange(0, 40)[0]);
        } else if d == -4 {
            assert(x.subrange(4, 44)[0] != r.subrange(0, 40)[0]);
        } else if d == -3 {
            assert(x.subrange(3, 43)[0] != r.subrange(0, 40)[0]);
        } else if d == -2 {
            assert(x.subrange(2, 42)[0] != r.subrange(0, 40)[0]);
        } else if d == -1 {
            assert(x.subrange(1, 41)[0] != r.subrange(0, 40)[0]);
        } else if d == 0 {
            assert(x.subrange(0, 40)[9] != r.subrange(0, 40)[9]);
        } else if d == 1 {
            assert(x.subrange(0, 39)[0] != r.subrange(1, 40)[0]);
        } else if d == 2 {
            assert(x.subrange(0, 38)[0] != r.subrange(2, 40)[0]);
        } else if d == 3 {
            assert(x.subrange(0, 37)[0] != r.subrange(3, 40)[0]);
        } else if d == 4 {
            assert(x.subrange(0, 36)[0] != r.subrange(4, 40)[0]);
        } else if d == 5 {
            assert(x.subrange(0, 35)[0] != r.subrange(5, 40)[0]);
        } else if d == 6 {
            assert(x.subrange(0, 34)[0] != r.subrange(6, 40)[0]);
        } else if d == 7 {
            assert(x.subrange(0, 33)[0] != r.subrange(7, 40)[0]);
        } else if d == 8 {
            assert(x.subrange(0, 32)[0] != r.subrange(8, 40)[0]);
        } else if d == 9 {
            assert(x.subrange(0, 31)[0] != r.subrange(9, 40)[0]);
        } else if d == 10 {
            assert(x.subrange(0, 30)[0] != r.subrange(10, 40)[0]);
        } else if d == 11 {
            assert(x.subrange(0, 29)[0] != r.subrange(11, 40)[0]);
        } else if d == 12 {
            assert(x.subrange(0, 28)[0] != r.subrange(12, 40)[0]);
        } else if d == 13 {
            assert(x.subrange(0, 27)[0] != r.subrange(13, 40)[0]);
        } else if d == 14 {
            assert(x.subrange(0, 26)[0] != r.subrange(14, 40)[0]);
        } else if d == 15 {
            assert(x.subrange(0, 25)[0] != r.subrange(15, 40)[0]);
        } else if d == 16 {
            assert(x.subrange(0, 24)[0] != r.subrange(16, 40)[0]);
        } else if d == 17 {
            assert(x.subrange(0, 23)[1] != r.subrange(17, 40)[1]);
        } else if d == 18 {
            assert(x.subrange(0, 22)[1] != r.subrange(18, 40)[1]);
        } else if d == 19 {
            assert(x.subrange(0, 21)[0] != r.subrange(19, 40)[0]);
        } else if d == 20 {
            assert(x.subrange(0, 20)[0] != r.subrange(20, 40)[0]);
        } else if d == 21 {
            assert(x.subrange(0, 19)[0] != r.subrange(21, 40)[0]);
        } else if d == 22 {
            assert(x.subrange(0, 18)[1] != r.subrange(22, 40)[1]);
        } else if d == 23 {
            assert(x.subrange(0, 17)[0] != r.subrange(23, 40)[0]);
        } else if d == 24 {
            assert(x.subrange(0, 16)[0] != r.subrange(24, 40)[0]);
        } else if d == 25 {
            assert(x.subrange(0, 15)[0] != r.subrange(25, 40)[0]);
        } else if d == 26 {
            assert(x.subrange(0, 14)[0] != r.subrange(26, 40)[0]);
        } else if d == 27 {
            assert(x.subrange(0, 13)[0] != r.subrange(27, 40)[0]);
        } else if d == 28 {
            assert(x.subrange(0, 12)[0] != r.subrange(28, 40)[0]);
        } else if d == 29 {
            assert(x.subrange(0, 11)[0] != r.subrange(29, 40)[0]);
        } else if d == 30 {
            assert(x.subrange(0, 10)[0] != r.subrange(30, 40)[0]);
        } else if d == 31 {
            assert(x.subrange(0, 9)[0] != r.subrange(31, 40)[0]);
        } else if d == 32 {
            assert(x.subrange(0, 8)[0] != r.subrange(32, 40)[0]);
        } else if d == 33 {
            assert(x.subrange(0, 7)[0] != r.subrange(33, 40)[0]);
        } else if d == 34 {
            assert(x.subrange(0, 6)[0] != r.subrange(34, 40)[0]);
        } else if d == 35 {
            assert(x.subrange(0, 5)[0] != r.subrange(35, 40)[0]);
        } else if d == 36 {
            assert(x.subrange(0, 4)[1] != r.subrange(36, 40)[1]);
        } else if d == 37 {
            assert(x.subrange(0, 3)[1] != r.subrange(37, 40)[1]);
        } else if d == 38 {
            assert(x.subrange(0, 2)[0] != r.subrange(38, 40)[0]);
        } else if d == 39 {
            assert(x.subrange(0, 1)[0] != r.subrange(39, 40)[0]);
        }
    }
}

} // verus!
