use xcm_mock::asset::{Asset, AssetId, Fungibility};
use xcm_mock::hashing::fake_message_hash;
use xcm_mock::location::{Junction, Location};
use xcm_mock::senders::{
    para3000, para3000_location, para3000_payment_amount, para3000_payment_assets, SendError,
    TestPaidForPara3000SendXcm, TestSendXcm, TestSendXcmErrX8,
};
use xcm_mock::sent::SentXcm;

fn location(parents: u8, interior: Vec<Junction>) -> Location {
    Location { parents, interior }
}

fn parachains(n: u32) -> Vec<Junction> {
    (0..n).map(|i| Junction::Parachain(1000 + i)).collect()
}

#[test]
fn blake2_of_empty_message() {
    let expected: [u8; 32] = [
        0x0e, 0x57, 0x51, 0xc0, 0x26, 0xe5, 0x43, 0xb2, 0xe8, 0xab, 0x2e, 0xb0, 0x60, 0x99, 0xda,
        0xa1, 0xd1, 0xe5, 0xdf, 0x47, 0x77, 0x8f, 0x77, 0x87, 0xfa, 0xab, 0x45, 0xcd, 0xf1, 0x2f,
        0xe3, 0xa8,
    ];
    assert_eq!(fake_message_hash(&[]), expected);
}

#[test]
fn hash_depends_on_the_message() {
    assert_ne!(fake_message_hash(&[1, 2, 3]), fake_message_hash(&[1, 2, 4]));
    assert_eq!(fake_message_hash(&[9, 9]), fake_message_hash(&[9, 9]));
}

#[test]
fn test_send_xcm_accepts_everything_free() {
    let mut dest = Some(location(1, parachains(3)));
    let mut msg = Some(vec![1u8, 2, 3]);
    let (ticket, price) = TestSendXcm::validate(&mut dest, &mut msg).unwrap();
    assert_eq!(ticket, (location(1, parachains(3)), vec![1u8, 2, 3]));
    assert!(price.is_empty());
    assert!(dest.is_none());
    assert!(msg.is_none());
}

#[test]
fn deliver_records_and_hashes() {
    let mut sent = SentXcm::new();
    let pair = (Location::here(), vec![7u8, 7]);
    let hash = TestSendXcm::deliver(&mut sent, pair).unwrap();
    assert_eq!(hash, fake_message_hash(&[7, 7]));
    assert_eq!(sent.sent_xcm(), vec![(Location::here(), vec![7u8, 7])]);
    let hash2 = TestSendXcmErrX8::deliver(&mut sent, (Location::parachain(5), vec![1u8])).unwrap();
    assert_eq!(hash2, fake_message_hash(&[1]));
    let hash3 =
        TestPaidForPara3000SendXcm::deliver(&mut sent, (Location::parachain(6), vec![2u8])).unwrap();
    assert_eq!(hash3, fake_message_hash(&[2]));
    assert_eq!(sent.len(), 3);
}

#[test]
fn err_x8_refuses_eight_junctions() {
    let mut dest = Some(location(0, parachains(8)));
    let mut msg = Some(vec![0u8]);
    let r = TestSendXcmErrX8::validate(&mut dest, &mut msg);
    assert_eq!(r.unwrap_err(), SendError::Transport("Destination location full"));
    assert!(dest.is_none());
    assert!(msg.is_none());
}

#[test]
fn err_x8_counts_parents() {
    let mut dest = Some(location(1, parachains(7)));
    let mut msg = Some(vec![0u8]);
    let r = TestSendXcmErrX8::validate(&mut dest, &mut msg);
    assert_eq!(r.unwrap_err(), SendError::Transport("Destination location full"));
}

#[test]
fn err_x8_accepts_shorter() {
    let mut dest = Some(location(0, parachains(7)));
    let mut msg = Some(vec![5u8]);
    let (ticket, price) = TestSendXcmErrX8::validate(&mut dest, &mut msg).unwrap();
    assert_eq!(ticket, (location(0, parachains(7)), vec![5u8]));
    assert!(price.is_empty());
}

#[test]
fn para3000_parameters() {
    assert_eq!(para3000(), 3000);
    assert_eq!(para3000_location(), location(0, vec![Junction::Parachain(3000)]));
    assert_eq!(para3000_payment_amount(), 1);
    assert_eq!(
        para3000_payment_assets(),
        vec![Asset { id: AssetId::Concrete(Location::here()), fun: Fungibility::Fungible(1) }]
    );
}

#[test]
fn paid_sender_charges_para3000() {
    let mut dest = Some(Location::parachain(3000));
    let mut msg = Some(vec![4u8]);
    let (ticket, price) = TestPaidForPara3000SendXcm::validate(&mut dest, &mut msg).unwrap();
    assert_eq!(ticket, (Location::parachain(3000), vec![4u8]));
    assert_eq!(price, para3000_payment_assets());
    assert!(dest.is_none());
    assert!(msg.is_none());
}

#[test]
fn paid_sender_leaves_others_untouched() {
    let mut dest = Some(Location::parachain(2000));
    let mut msg = Some(vec![4u8]);
    let r = TestPaidForPara3000SendXcm::validate(&mut dest, &mut msg);
    assert_eq!(r.unwrap_err(), SendError::NotApplicable);
    assert_eq!(dest, Some(Location::parachain(2000)));
    assert_eq!(msg, Some(vec![4u8]));

    let mut dest = Some(location(1, vec![Junction::Parachain(3000)]));
    let r = TestPaidForPara3000SendXcm::validate(&mut dest, &mut msg);
    assert_eq!(r.unwrap_err(), SendError::NotApplicable);
    assert!(dest.is_some());

    let mut none: Option<Location> = None;
    let mut no_msg: Option<Vec<u8>> = None;
    let r = TestPaidForPara3000SendXcm::validate(&mut none, &mut no_msg);
    assert_eq!(r.unwrap_err(), SendError::NotApplicable);
}

#[test]
fn err_x8_refuses_x8_interior_under_a_parent() {
    let mut dest = Some(location(1, parachains(8)));
    let mut msg = Some(vec![0u8]);
    let r = TestSendXcmErrX8::validate(&mut dest, &mut msg);
    assert_eq!(r.unwrap_err(), SendError::Transport("Destination location full"));
    assert!(dest.is_none());
    assert!(msg.is_none());
}
