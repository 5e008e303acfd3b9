use wifiqr::mailslot::{mailslot, Displaced, MailslotState};

type Frame = (i32, Vec<u8>);

#[test]
fn a_fresh_slot_is_idle() {
    let slot: MailslotState<Frame, u32> = mailslot();
    assert_eq!(slot, MailslotState::Idle);
    let by_default: MailslotState<Frame, u32> = Default::default();
    assert_eq!(by_default, MailslotState::Idle);
}

#[test]
fn two_sends_then_one_receive_yield_the_second() {
    let mut slot: MailslotState<Frame, u32> = mailslot();
    let a = vec![1u8, 2, 3];
    let b = vec![4u8, 5, 6];
    assert_eq!(slot.send_replace((1, a.clone())), Displaced::Nothing);
    assert_eq!(slot.send_replace((2, b.clone())), Displaced::Stale((1, a)));
    assert_eq!(slot.recv(7), Some((2, b)));
}

#[test]
fn the_last_of_many_sends_wins() {
    let mut slot: MailslotState<u32, u32> = mailslot();
    for value in 1..=50u32 {
        let displaced = slot.send_replace(value);
        if value == 1 {
            assert_eq!(displaced, Displaced::Nothing);
        } else {
            assert_eq!(displaced, Displaced::Stale(value - 1));
        }
    }
    assert_eq!(slot, MailslotState::Present(50));
    assert_eq!(slot.recv(0), Some(50));
}

#[test]
fn exactly_one_value_is_retrievable_after_sends() {
    let mut slot: MailslotState<&str, u32> = mailslot();
    slot.send_replace("first");
    slot.send_replace("second");
    slot.send_replace("third");
    assert_eq!(slot.recv(1), Some("third"));
    assert_eq!(slot, MailslotState::Idle);
    assert_eq!(slot.recv(2), None);
    assert_eq!(slot, MailslotState::Waiting { please_unpark: 2 });
}

#[test]
fn a_receive_on_an_empty_slot_registers_the_waiter() {
    let mut slot: MailslotState<u8, &str> = mailslot();
    assert_eq!(slot.recv("worker"), None);
    assert_eq!(slot, MailslotState::Waiting { please_unpark: "worker" });
}

#[test]
fn a_send_to_a_parked_receiver_asks_to_wake_it() {
    let mut slot: MailslotState<u8, &str> = mailslot();
    assert_eq!(slot.recv("worker"), None);
    assert_eq!(slot.send_replace(9), Displaced::Waiter("worker"));
    assert_eq!(slot, MailslotState::Present(9));
    assert_eq!(slot.recv("worker"), Some(9));
    assert_eq!(slot, MailslotState::Idle);
}

#[test]
fn a_spurious_wakeup_registers_the_waiter_again() {
    let mut slot: MailslotState<u8, u32> = mailslot();
    assert_eq!(slot.recv(1), None);
    assert_eq!(slot.recv(2), None);
    assert_eq!(slot, MailslotState::Waiting { please_unpark: 2 });
    assert_eq!(slot.send_replace(5), Displaced::Waiter(2));
    assert_eq!(slot.recv(2), Some(5));
}

#[test]
fn a_value_sent_while_waiting_supersedes_nothing_but_later_sends_supersede_it() {
    let mut slot: MailslotState<u8, u32> = mailslot();
    assert_eq!(slot.recv(1), None);
    assert_eq!(slot.send_replace(10), Displaced::Waiter(1));
    assert_eq!(slot.send_replace(11), Displaced::Stale(10));
    assert_eq!(slot.recv(1), Some(11));
}

/// Runs one interleaving of a sender that sends `1..=sends` and a receiver that
/// tries to receive whenever `schedule` says so, and checks what each party sees.
fn run_schedule(sends: u32, schedule: u32, steps: u32) {
    let mut slot: MailslotState<u32, u32> = mailslot();
    let mut sent = 0u32;
    let mut parked = false;
    let mut woken = false;
    let mut last_received = 0u32;
    let mut unreceived = false;
    for step in 0..steps {
        let receiver_runs = (schedule >> step) & 1 == 1;
        if receiver_runs {
            if parked && !woken {
                continue;
            }
            match slot.recv(77) {
                Some(value) => {
                    assert!(unreceived);
                    assert_eq!(value, sent);
                    assert!(value > last_received);
                    last_received = value;
                    unreceived = false;
                    parked = false;
                    woken = false;
                }
                None => {
                    assert!(!unreceived);
                    parked = true;
                    woken = false;
                }
            }
        } else if sent < sends {
            sent += 1;
            match slot.send_replace(sent) {
                Displaced::Waiter(handle) => {
                    assert_eq!(handle, 77);
                    assert!(parked);
                    woken = true;
                }
                Displaced::Stale(stale) => {
                    assert_eq!(stale, sent - 1);
                    assert!(unreceived);
                }
                Displaced::Nothing => {
                    assert!(!unreceived);
                    assert!(!parked);
                }
            }
            unreceived = true;
        }
    }
    // A parked receiver is never left behind with a value in the slot unless
    // it was asked to wake.
    if parked && unreceived {
        assert!(woken);
        assert_eq!(slot.recv(77), Some(sent));
    }
}

#[test]
fn no_wakeup_is_lost_under_any_interleaving() {
    let steps = 12;
    for schedule in 0..(1u32 << steps) {
        run_schedule(6, schedule, steps);
    }
}
