use dprun::controller::{AppController, AppMessage, UNSOLICITED};

#[test]
fn send_is_unsolicited_and_reply_names_its_request() {
    let mut c = AppController::create();
    match c.send(vec![1, 2]).unwrap() {
        AppMessage::Send(id, reply_to, data) => {
            assert_eq!(id, 0);
            assert_eq!(reply_to, UNSOLICITED);
            assert_eq!(data, vec![1u8, 2]);
        }
    }
    match c.reply(17, vec![3]).unwrap() {
        AppMessage::Send(id, reply_to, data) => {
            assert_eq!(id, 1);
            assert_eq!(reply_to, 17);
            assert_eq!(data, vec![3u8]);
        }
    }
}

#[test]
fn ids_strictly_increase_across_interleaved_calls() {
    let mut c = AppController::create();
    let mut last: Option<u32> = None;
    for k in 0..20u32 {
        let m = if k % 3 == 0 { c.reply(k, vec![]) } else { c.send(vec![k as u8]) };
        let AppMessage::Send(id, _, _) = m.unwrap();
        if let Some(prev) = last {
            assert!(id > prev);
        }
        last = Some(id);
    }
    assert_eq!(last, Some(19));
}

#[test]
fn outbound_frame_layout() {
    let m = AppMessage::Send(1, UNSOLICITED, vec![0xAB, 0xCD]);
    assert_eq!(
        m.to_frame(),
        vec![0u8, 0, 0, 1, 0xFF, 0xFF, 0xFF, 0xFF, 0, 0, 0, 0, 0xAB, 0xCD]
    );
    let r = AppMessage::Send(0x01020304, 5, vec![]);
    assert_eq!(r.to_frame(), vec![1u8, 2, 3, 4, 0, 0, 0, 5, 0, 0, 0, 0]);
}

#[test]
fn fresh_controller_can_issue() {
    let c = AppController::create();
    assert!(c.can_issue());
}
