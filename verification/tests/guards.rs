use empty_option::EmptyOptionExt;

#[test]
fn catch_and_release() {
    let mut thing = Some(5);

    {
        let (guard, five) = thing.steal();

        assert_eq!(five, 5);

        guard.restore(6);
    }

    assert_eq!(thing, Some(6));
}

#[test]
fn mut_and_release() {
    let mut thing = Some(5);

    {
        let mut stolen = thing.steal_mut();

        assert_eq!(*stolen.deref(), 5);

        *stolen.deref_mut() = 6;
    }

    assert_eq!(thing, Some(6));
}

#[test]
fn mut_and_keep() {
    let mut thing = Some(5);

    {
        // Keep the thing!
        let stolen = thing.steal_mut().into_inner();

        assert_eq!(stolen, 5);
    }

    assert_eq!(thing, None);
}

#[test]
fn restore_may_put_the_stolen_value_back() {
    let mut thing = Some(String::from("held"));

    {
        let (guard, held) = thing.steal();
        assert_eq!(held, "held");
        guard.restore(held);
    }

    assert_eq!(thing, Some(String::from("held")));
}

#[test]
fn restore_with_another_value_replaces_the_stolen_one() {
    let mut thing = Some(vec![1u8, 2, 3]);

    let (guard, taken) = thing.steal();
    assert_eq!(taken, vec![1u8, 2, 3]);
    guard.restore(vec![9u8]);

    assert_eq!(thing, Some(vec![9u8]));
}

#[test]
fn option_is_empty_between_steal_and_restore() {
    let mut thing = Some(7u32);
    let (guard, seven) = thing.steal();
    assert_eq!(seven, 7);
    guard.restore(seven + 1);
    assert_eq!(thing, Some(8));

    let mut again = Some(7u32);
    {
        let (_guard, _seven) = again.steal();
    }
    assert_eq!(again, None);
}

#[test]
fn release_gives_the_written_value_back() {
    let mut thing = Some(5);

    let mut stolen = thing.steal_mut();
    assert!(stolen.is_holding());
    assert_eq!(*stolen.deref(), 5);
    *stolen.deref_mut() = 6;
    assert_eq!(*stolen.deref(), 6);
    stolen.release();

    assert_eq!(thing, Some(6));
}

#[test]
fn release_without_a_write_gives_the_value_back_unchanged() {
    let mut thing = Some(String::from("same"));
    thing.steal_mut().release();
    assert_eq!(thing, Some(String::from("same")));
}

#[test]
fn scope_end_without_a_write_gives_the_value_back_unchanged() {
    let mut thing = Some(41u64);
    {
        let stolen = thing.steal_mut();
        assert_eq!(*stolen.deref(), 41);
    }
    assert_eq!(thing, Some(41));
}

#[test]
fn writes_through_deref_mut_add_up() {
    let mut thing = Some(vec![1u8]);
    {
        let mut stolen = thing.steal_mut();
        stolen.deref_mut().push(2);
        stolen.deref_mut().push(3);
        assert_eq!(stolen.deref().len(), 3);
    }
    assert_eq!(thing, Some(vec![1u8, 2, 3]));
}

#[test]
fn into_inner_after_a_write_returns_the_written_value() {
    let mut thing = Some(5);
    let kept = {
        let mut stolen = thing.steal_mut();
        *stolen.deref_mut() = 6;
        stolen.into_inner()
    };
    assert_eq!(kept, 6);
    assert_eq!(thing, None);
}

#[test]
fn steal_mut_of_an_empty_option_holds_nothing() {
    let mut thing: Option<i32> = None;
    {
        let stolen = thing.steal_mut();
        assert!(!stolen.is_holding());
    }
    assert_eq!(thing, None);

    let stolen = thing.steal_mut();
    assert!(!stolen.is_holding());
    stolen.release();
    assert_eq!(thing, None);
}

#[test]
fn an_option_can_be_stolen_from_again() {
    let mut thing = Some(1u8);

    let (guard, one) = thing.steal();
    guard.restore(one + 1);
    assert_eq!(thing, Some(2));

    {
        let mut stolen = thing.steal_mut();
        *stolen.deref_mut() += 1;
    }
    assert_eq!(thing, Some(3));

    let three = thing.steal_mut().into_inner();
    assert_eq!(three, 3);
    assert_eq!(thing, None);

    thing.steal_mut().release();
    assert_eq!(thing, None);
}
