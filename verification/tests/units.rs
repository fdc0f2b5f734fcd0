use git_branch::name::encode;
use git_branch::name::encode_opt;
use git_branch::order::compare;
use git_branch::Branch;
use git_branch::BranchType;
use git_branch::Branches;
use git_branch::Error;
use git_branch::Reference;
use git_branch::StoreError;
use std::cmp::Ordering;

fn branch(raw: u64, name: &[u8]) -> Branch {
    Branch::wrap(Reference::new(raw, Ok(name.to_vec())))
}

#[test]
fn a_negative_code_is_a_failure() {
    assert_eq!(StoreError::from_code(-1, 4), Some(StoreError { code: -1, class: 4 }));
    assert_eq!(StoreError::from_code(-31, 0), Some(StoreError { code: -31, class: 0 }));
    assert_eq!(
        StoreError::from_code(i32::MIN, -9),
        Some(StoreError { code: i32::MIN, class: -9 })
    );
    assert_eq!(StoreError::from_code(0, 4), None);
    assert_eq!(StoreError::from_code(1, 4), None);
    assert_eq!(StoreError::from_code(i32::MAX, 4), None);
}

#[test]
fn failures_are_told_apart_by_their_code() {
    let over = StoreError { code: libgit2_sys::GIT_ITEROVER, class: 0 };
    let missing = StoreError { code: libgit2_sys::GIT_ENOTFOUND, class: 4 };
    let other = StoreError { code: libgit2_sys::GIT_EEXISTS, class: 4 };
    assert!(over.is_end_of_iteration());
    assert!(!over.is_not_found());
    assert!(missing.is_not_found());
    assert!(!missing.is_end_of_iteration());
    assert!(!other.is_not_found());
    assert!(!other.is_end_of_iteration());
    assert!(StoreError { code: -31, class: 9 }.is_end_of_iteration());
    assert!(StoreError { code: -3, class: 9 }.is_not_found());
}

#[test]
fn tags_one_and_two_are_the_two_kinds() {
    assert_eq!(BranchType::from_raw(1), Some(BranchType::Local));
    assert_eq!(BranchType::from_raw(2), Some(BranchType::Remote));
    assert_eq!(BranchType::from_raw(libgit2_sys::GIT_BRANCH_LOCAL), Some(BranchType::Local));
    assert_eq!(BranchType::from_raw(libgit2_sys::GIT_BRANCH_REMOTE), Some(BranchType::Remote));
    assert_eq!(BranchType::from_raw(0), None);
    assert_eq!(BranchType::from_raw(3), None);
    assert_eq!(BranchType::from_raw(libgit2_sys::GIT_BRANCH_ALL), None);
    assert_eq!(BranchType::from_raw(u32::MAX), None);
}

#[test]
fn encode_gives_the_bytes_of_a_name_without_zero_byte() {
    assert_eq!(encode("master"), Ok(b"master".to_vec()));
    assert_eq!(encode(""), Ok(Vec::new()));
    assert_eq!(encode("gr\u{fc}n"), Ok(vec![0x67, 0x72, 0xc3, 0xbc, 0x6e]));
    assert_eq!(encode("\0"), Err(Error::InvalidName));
    assert_eq!(encode("\0master"), Err(Error::InvalidName));
    assert_eq!(encode("mas\0ter"), Err(Error::InvalidName));
    assert_eq!(encode("master\0"), Err(Error::InvalidName));
}

#[test]
fn encode_opt_lets_no_name_pass() {
    assert_eq!(encode_opt(None), Ok(None));
    assert_eq!(encode_opt(Some("master")), Ok(Some(b"master".to_vec())));
    assert_eq!(encode_opt(Some("")), Ok(Some(Vec::new())));
    assert_eq!(encode_opt(Some("a\0")), Err(Error::InvalidName));
}

#[test]
fn compare_orders_by_the_first_byte_that_differs() {
    assert_eq!(compare(b"foo", b"bar"), Ordering::Greater);
    assert_eq!(compare(b"bar", b"foo"), Ordering::Less);
    assert_eq!(compare(b"foo", b"foo"), Ordering::Equal);
    assert_eq!(compare(b"foo", b"moo"), Ordering::Less);
    assert_eq!(compare(b"", b""), Ordering::Equal);
    assert_eq!(compare(b"", b"a"), Ordering::Less);
    assert_eq!(compare(b"a", b""), Ordering::Greater);
    assert_eq!(compare(b"foo", b"foo2"), Ordering::Less);
    assert_eq!(compare(b"foo2", b"foo"), Ordering::Greater);
    assert_eq!(compare(b"fop", b"foo2"), Ordering::Greater);
    assert_eq!(compare(&[0x7f], &[0x80]), Ordering::Less);
    assert_eq!(compare(&[0xff], &[0x00, 0xff]), Ordering::Greater);
}

#[test]
fn compare_agrees_with_the_order_of_strings() {
    let names = ["", "a", "B", "bar", "foo", "foo2", "f\u{f6}\u{f6}", "moo", "\u{10348}", "z"];
    for l in names {
        for r in names {
            assert_eq!(compare(l.as_bytes(), r.as_bytes()), l.cmp(r));
        }
    }
}

#[test]
fn the_answer_of_the_store_orders_two_references() {
    assert_eq!(Reference::order(-1), Ordering::Less);
    assert_eq!(Reference::order(i32::MIN), Ordering::Less);
    assert_eq!(Reference::order(0), Ordering::Equal);
    assert_eq!(Reference::order(1), Ordering::Greater);
    assert_eq!(Reference::order(i32::MAX), Ordering::Greater);
}

#[test]
fn a_reference_holds_its_handle_and_the_answer_for_its_name() {
    let named = Reference::new(17, Ok(b"topic".to_vec()));
    assert_eq!(named.raw(), 17);
    assert_eq!(named.branch_name(), Ok(&b"topic"[..]));
    let refused = StoreError { code: -1, class: 3 };
    let unnamed = Reference::new(u64::MAX, Err(refused));
    assert_eq!(unnamed.raw(), u64::MAX);
    assert_eq!(unnamed.branch_name(), Err(refused));
}

#[test]
fn a_branch_is_its_reference() {
    let branch = Branch::wrap(Reference::new(3, Ok(b"topic".to_vec())));
    assert_eq!(branch.get().raw(), 3);
    assert_eq!(branch.get().branch_name(), Ok(&b"topic"[..]));
    let reference = branch.into_reference();
    assert_eq!(reference.raw(), 3);
    assert_eq!(reference.branch_name(), Ok(&b"topic"[..]));
}

#[test]
fn name_decodes_the_bytes_that_are_utf8() {
    assert_eq!(branch(1, b"master").name(), Ok(Some("master")));
    assert_eq!(branch(1, b"").name(), Ok(Some("")));
    assert_eq!(branch(1, &[0x67, 0x72, 0xc3, 0xbc, 0x6e]).name(), Ok(Some("gr\u{fc}n")));
    assert_eq!(branch(1, &[0xf0, 0x90, 0x8d, 0x88]).name(), Ok(Some("\u{10348}")));
}

#[test]
fn name_is_absent_where_the_bytes_are_not_utf8() {
    // a byte that starts nothing, a sequence cut short, an overlong form, a
    // surrogate, a code point beyond the last one
    let broken: [&[u8]; 5] =
        [&[0xff], &[0x66, 0xc3], &[0xc0, 0xaf], &[0xed, 0xa0, 0x80], &[0xf4, 0x90, 0x80, 0x80]];
    for bytes in broken {
        let branch = branch(1, bytes);
        assert_eq!(branch.name(), Ok(None));
        assert_eq!(branch.name_bytes(), Ok(bytes));
    }
}

#[test]
fn name_fails_where_the_store_produced_none() {
    let refused = StoreError { code: -1, class: 3 };
    let branch = Branch::wrap(Reference::new(1, Err(refused)));
    assert_eq!(branch.name(), Err(Error::StoreError(refused)));
    assert_eq!(branch.name_bytes(), Err(Error::StoreError(refused)));
}

#[test]
fn replies_with_a_reference_become_branches() {
    let asked = branch(1, b"topic");
    assert_eq!(asked.upstream().reference, 1);
    let reply = Ok(Reference::new(2, Ok(b"origin/topic".to_vec())));
    let found = asked.upstream().finish(reply).unwrap();
    assert_eq!(found.get().raw(), 2);
    assert_eq!(found.name(), Ok(Some("origin/topic")));
    let missing = StoreError { code: -3, class: 7 };
    assert_eq!(asked.upstream().finish(Err(missing)).unwrap_err(), Error::StoreError(missing));

    let mut asked = asked;
    let call = asked.rename("other", false).unwrap();
    let renamed = call.finish(Ok(Reference::new(3, Ok(b"other".to_vec())))).unwrap();
    assert_eq!(renamed.get().raw(), 3);
    assert_eq!(renamed.name(), Ok(Some("other")));
    let taken = StoreError { code: -4, class: 4 };
    let call = asked.rename("other", false).unwrap();
    assert_eq!(call.finish(Err(taken)).unwrap_err(), Error::StoreError(taken));
    assert_eq!(asked.get().raw(), 1);
    assert_eq!(asked.name(), Ok(Some("topic")));
}

#[test]
fn delete_hands_over_the_reference_and_leaves_the_branch() {
    let mut asked = branch(8, b"topic");
    assert_eq!(asked.delete().reference, 8);
    assert_eq!(asked.delete().finish(Ok(())), Ok(()));
    let refused = StoreError { code: -1, class: 4 };
    assert_eq!(asked.delete().finish(Err(refused)), Err(Error::StoreError(refused)));
    assert_eq!(asked.get().raw(), 8);
    assert_eq!(asked.name_bytes(), Ok(&b"topic"[..]));
}

#[test]
fn next_hands_over_the_cursor_and_reads_each_reply_of_the_store() {
    let mut branches = Branches::from_raw(11);
    assert_eq!(branches.raw(), 11);
    assert!(!branches.is_released());
    assert_eq!(branches.next().unwrap().cursor, 11);

    let reply = Ok((Reference::new(1, Ok(b"master".to_vec())), 1));
    let (branch, kind) = branches.next().unwrap().finish(reply).unwrap().unwrap();
    assert_eq!(branch.get().raw(), 1);
    assert_eq!(branch.name(), Ok(Some("master")));
    assert_eq!(kind, BranchType::Local);

    let reply = Ok((Reference::new(2, Ok(b"origin/master".to_vec())), 2));
    let (branch, kind) = branches.next().unwrap().finish(reply).unwrap().unwrap();
    assert_eq!(branch.get().raw(), 2);
    assert_eq!(kind, BranchType::Remote);

    let failed = StoreError { code: -1, class: 2 };
    let item = branches.next().unwrap().finish(Err(failed));
    assert_eq!(item.unwrap().unwrap_err(), Error::StoreError(failed));

    let over = branches.next().unwrap().finish(Err(StoreError { code: -31, class: 0 }));
    assert!(over.is_none());
    let over = branches.next().unwrap().finish(Err(StoreError { code: -31, class: 5 }));
    assert!(over.is_none());
    assert_eq!(branches.raw(), 11);
    assert!(!branches.is_released());
}

#[test]
fn names_decide_the_order_wherever_one_is_there() {
    let foo = branch(1, b"foo");
    let bar = branch(2, b"bar");
    let undecodable = branch(3, &[0xff]);
    let unnamed = Branch::wrap(Reference::new(4, Err(StoreError { code: -1, class: 3 })));
    assert_eq!(foo.cmp_by_name(&bar), Some(Ordering::Greater));
    assert_eq!(bar.cmp_by_name(&foo), Some(Ordering::Less));
    assert_eq!(foo.cmp_by_name(&foo), Some(Ordering::Equal));
    assert_eq!(foo.cmp_by_name(&undecodable), Some(Ordering::Less));
    assert_eq!(unnamed.cmp_by_name(&foo), Some(Ordering::Greater));
    assert_eq!(undecodable.cmp_by_name(&unnamed), None);
    assert_eq!(unnamed.cmp_by_name(&undecodable), None);
    assert_eq!(unnamed.cmp_by_name(&unnamed), None);
}

#[test]
fn order_of_names_does_not_ask_for_the_references() {
    let foo = branch(1, b"foo");
    let bar = branch(2, b"bar");
    for answer in [i32::MIN, -1, 0, 1, i32::MAX] {
        assert_eq!(foo.cmp(&bar, answer), Ordering::Greater);
        assert_eq!(bar.cmp(&foo, answer), Ordering::Less);
        assert_eq!(foo.cmp(&foo, answer), Ordering::Equal);
        assert!(foo.eq(&foo, answer));
        assert!(!foo.eq(&bar, answer));
        assert_eq!(foo.partial_cmp(&bar, answer), Some(Ordering::Greater));
    }
}

#[test]
fn sorting_puts_named_branches_first_and_in_the_order_of_their_names() {
    let mut all = vec![
        branch(1, &[0xff]),
        branch(2, b"moo"),
        Branch::wrap(Reference::new(3, Err(StoreError { code: -1, class: 3 }))),
        branch(4, b"bar"),
        branch(5, b"foo"),
    ];
    // The store orders the references by their handles here.
    all.sort_by(|l, r| {
        let answer = if l.get().raw() < r.get().raw() {
            -1
        } else if l.get().raw() == r.get().raw() {
            0
        } else {
            1
        };
        l.cmp(r, answer)
    });
    let handles: Vec<u64> = all.iter().map(|b| b.get().raw()).collect();
    assert_eq!(handles, vec![4, 5, 2, 1, 3]);
}

#[test]
fn the_order_of_branches_is_a_total_order() {
    let refused = StoreError { code: -1, class: 3 };
    let all = [
        branch(1, b""),
        branch(2, b"bar"),
        branch(3, b"foo"),
        branch(4, b"foo"),
        branch(5, b"foo2"),
        branch(6, &[0xff]),
        Branch::wrap(Reference::new(7, Err(refused))),
        branch(8, &[0xc0, 0xaf]),
    ];
    // The store orders the references by their handles here.
    let answer = |l: &Branch, r: &Branch| -> i32 {
        if l.get().raw() < r.get().raw() {
            -1
        } else if l.get().raw() == r.get().raw() {
            0
        } else {
            1
        }
    };
    for a in &all {
        assert_eq!(a.cmp(a, answer(a, a)), Ordering::Equal);
        for b in &all {
            let ab = a.cmp(b, answer(a, b));
            assert_eq!(b.cmp(a, answer(b, a)), ab.reverse());
            assert_eq!(a.eq(b, answer(a, b)), ab == Ordering::Equal);
            for c in &all {
                let bc = b.cmp(c, answer(b, c));
                let ac = a.cmp(c, answer(a, c));
                if ab != Ordering::Greater && bc != Ordering::Greater {
                    assert_ne!(ac, Ordering::Greater);
                    if ab == Ordering::Less || bc == Ordering::Less {
                        assert_eq!(ac, Ordering::Less);
                    }
                }
            }
        }
    }
}
