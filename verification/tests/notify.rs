use microkernel::notify::{Notify, NotifyEnum};

#[test]
fn new_set_is_empty() {
    let mut n = Notify::new();
    assert!(n.is_empty());
    assert_eq!(n.pop(), None);
    assert_eq!(n.to_bits(), 0);
}

#[test]
fn pop_takes_the_lowest_notification_first() {
    let mut n = Notify::from(NotifyEnum::ASYNC(4))
        | Notify::from(NotifyEnum::ABORTED)
        | Notify::from(NotifyEnum::TIMER)
        | Notify::from(NotifyEnum::IRQ);
    assert_eq!(n.pop(), Some(NotifyEnum::TIMER));
    assert_eq!(n.pop(), Some(NotifyEnum::IRQ));
    assert_eq!(n.pop(), Some(NotifyEnum::ABORTED));
    assert_eq!(n.pop(), Some(NotifyEnum::ASYNC(4)));
    assert_eq!(n.pop(), None);
    assert!(n.is_empty());
}

#[test]
fn asynchronous_senders_come_out_in_the_order_of_their_ids() {
    let mut n = Notify::from(NotifyEnum::ASYNC(60)) | Notify::from(NotifyEnum::ASYNC(0))
        | Notify::from(NotifyEnum::ASYNC(7));
    assert_eq!(n.pop(), Some(NotifyEnum::ASYNC(0)));
    assert_eq!(n.pop(), Some(NotifyEnum::ASYNC(7)));
    assert_eq!(n.pop(), Some(NotifyEnum::ASYNC(60)));
    assert_eq!(n.pop(), None);
}

#[test]
fn bits_of_the_notifications() {
    assert_eq!(Notify::from(NotifyEnum::TIMER).to_bits(), 1);
    assert_eq!(Notify::from(NotifyEnum::IRQ).to_bits(), 2);
    assert_eq!(Notify::from(NotifyEnum::ABORTED).to_bits(), 4);
    assert_eq!(Notify::from(NotifyEnum::ASYNC(0)).to_bits(), 8);
    assert_eq!(Notify::from(NotifyEnum::ASYNC(2)).to_bits(), 32);
    assert_eq!(Notify::from_bits(5), Notify::from(NotifyEnum::TIMER) | Notify::from(NotifyEnum::ABORTED));
}

#[test]
fn pop_specify_takes_only_what_is_pending() {
    let mut n = Notify::from(NotifyEnum::IRQ) | Notify::from(NotifyEnum::ABORTED);
    assert_eq!(n.pop_specify(NotifyEnum::TIMER), None);
    assert_eq!(n.to_bits(), 6);
    assert_eq!(n.pop_specify(NotifyEnum::ABORTED), Some(NotifyEnum::ABORTED));
    assert_eq!(n.to_bits(), 2);
    assert_eq!(n.pop_specify(NotifyEnum::ABORTED), None);
    assert!(n.contains(NotifyEnum::IRQ));
    assert!(!n.contains(NotifyEnum::ABORTED));
}

#[test]
fn pop_all_drains_the_set() {
    let mut n = Notify::from(NotifyEnum::TIMER) | Notify::from(NotifyEnum::ASYNC(1));
    let all = n.pop_all();
    assert_eq!(all.to_bits(), 17);
    assert!(n.is_empty());
    assert!(n.pop_all().is_empty());
}

#[test]
fn union_is_idempotent_and_commutes() {
    let a = Notify::from(NotifyEnum::TIMER);
    let b = Notify::from(NotifyEnum::ASYNC(3));
    assert_eq!(a | b, b | a);
    assert_eq!((a | b) | b, a | b);
    let mut c = a;
    c.bitor_assign(b);
    assert_eq!(c, a | b);
    assert_eq!(c.to_bits(), 65);
}
