use xcm_mock::config::{
    buy_execution, buy_limited_execution, xcm_fees_not_waived_user_account, xcm_router, Weight,
    WeightLimit, XcmConfig,
};
use xcm_mock::asset::Asset;
use xcm_mock::hashing::fake_message_hash;
use xcm_mock::location::{Junction, Location};
use xcm_mock::router::{route_deliver, route_validate, send_xcm, RouterTicket, Sender};
use xcm_mock::senders::{para3000_payment_assets, SendError};
use xcm_mock::sent::SentXcm;

fn eight() -> Location {
    Location { parents: 0, interior: (0..8).map(Junction::Parachain).collect() }
}

#[test]
fn pallet_router_stops_at_eight_junctions() {
    let mut sent = SentXcm::new();
    let r = send_xcm(&xcm_router(), &mut sent, eight(), vec![1u8]);
    assert_eq!(r.unwrap_err(), SendError::Transport("Destination location full"));
    assert_eq!(sent.len(), 0);
}

#[test]
fn pallet_router_sends_others_free() {
    let mut sent = SentXcm::new();
    let (hash, price) = send_xcm(&xcm_router(), &mut sent, Location::parachain(3000), vec![1u8]).unwrap();
    assert_eq!(hash, fake_message_hash(&[1]));
    assert!(price.is_empty());
    assert_eq!(sent.take_sent_xcm(), vec![(Location::parachain(3000), vec![1u8])]);
}

#[test]
fn executor_sender_charges_para3000() {
    let mut sent = SentXcm::new();
    let (_, price) =
        send_xcm(&XcmConfig::xcm_sender(), &mut sent, Location::parachain(3000), vec![2u8]).unwrap();
    assert_eq!(price, para3000_payment_assets());
    let (_, price) = send_xcm(&XcmConfig::xcm_sender(), &mut sent, eight(), vec![3u8]).unwrap();
    assert!(price.is_empty());
    assert_eq!(sent.len(), 2);
}

#[test]
fn router_index_is_the_accepting_sender() {
    let router = XcmConfig::xcm_sender();
    let mut dest = Some(Location::parachain(1));
    let mut msg = Some(vec![9u8]);
    let (ticket, _) = route_validate(&router, &mut dest, &mut msg).unwrap();
    assert_eq!(ticket.index, 1);
    assert!(dest.is_none());
}

#[test]
fn router_without_applicable_sender() {
    let router = vec![Sender::TestPaidForPara3000SendXcm];
    let mut dest = Some(Location::parachain(1));
    let mut msg = Some(vec![9u8]);
    let r = route_validate(&router, &mut dest, &mut msg);
    assert_eq!(r.err(), Some(SendError::NotApplicable));
    assert_eq!(dest, Some(Location::parachain(1)));
    assert_eq!(msg, Some(vec![9u8]));
    let mut sent = SentXcm::new();
    assert_eq!(send_xcm(&router, &mut sent, Location::parachain(1), vec![1u8]).unwrap_err(), SendError::NotApplicable);
    assert_eq!(sent.len(), 0);
}

#[test]
fn deliver_with_unknown_sender_is_unroutable() {
    let mut sent = SentXcm::new();
    let ticket = RouterTicket { index: 5, pair: (Location::here(), vec![1u8]) };
    assert_eq!(route_deliver(&xcm_router(), &mut sent, ticket).unwrap_err(), SendError::Unroutable);
    assert_eq!(sent.len(), 0);
}

#[test]
fn fees_waived_for_all_but_one() {
    let not_waived = Location {
        parents: 0,
        interior: vec![Junction::AccountId32 { network: None, id: [37u8; 32] }],
    };
    assert_eq!(xcm_fees_not_waived_user_account(), [37u8; 32]);
    assert!(XcmConfig::fees_not_waived(&not_waived));
    assert!(!XcmConfig::fees_waived(&not_waived));
    let other = Location {
        parents: 0,
        interior: vec![Junction::AccountId32 { network: None, id: [36u8; 32] }],
    };
    assert!(XcmConfig::fees_waived(&other));
    let with_parent = Location { parents: 1, interior: not_waived.interior.clone() };
    assert!(XcmConfig::fees_waived(&with_parent));
    assert!(XcmConfig::fees_waived(&Location::here()));
}

#[test]
fn buying_execution() {
    let fees = para3000_payment_assets().pop().unwrap();
    let b = buy_execution(Asset::fungible(Location::here(), 1));
    assert_eq!(b.fees, fees);
    assert_eq!(b.weight_limit, WeightLimit::Unlimited);
    let w = Weight { ref_time: 10, proof_size: 20 };
    let b = buy_limited_execution(Asset::fungible(Location::here(), 1), w);
    assert_eq!(b.weight_limit, WeightLimit::Limited(w));
}

#[test]
fn pallet_router_stops_at_x8_under_a_parent() {
    let mut sent = SentXcm::new();
    let dest = Location { parents: 1, interior: (0..8).map(Junction::Parachain).collect() };
    let r = send_xcm(&xcm_router(), &mut sent, dest, vec![1u8]);
    assert_eq!(r.unwrap_err(), SendError::Transport("Destination location full"));
    assert_eq!(sent.len(), 0);
}
