use std::sync::Arc;

use bitcomm::client::{ClientID, ClientPlanet, ClientType};
use bitcomm::datagram::{
    BitCommand, BitcommFlag, BitcommVersion, CommandDataGram, DataGramError, InnerDataGram,
    MessageDataGram, MessageType, ReturnCode,
};

fn filled_message() -> MessageDataGram {
    let mut buf = MessageDataGram::create_gram_buf(0);
    let mut m = MessageDataGram::create_message_data_gram_by_mut_vec8(&mut buf);
    m.set_command(BitCommand::send_mess())
        .set_sender(ClientID::new(ClientPlanet::planet_mar(), 11))
        .set_sendertype(ClientType::client_people())
        .set_messagetype(MessageType::mess_images())
        .set_messageid(1234)
        .set_refmessageid(99)
        .set_receiver(ClientID::new(ClientPlanet::planet_earth(), 22))
        .set_receivertype(ClientType::client_group())
        .set_datasize(17);
    m.get()
}

#[test]
fn sizes_are_the_c_layout_sizes() {
    assert_eq!(MessageDataGram::get_size(), 80);
    assert_eq!(CommandDataGram::get_size(), 56);
}

#[test]
fn gram_bufs_are_zeroed_header_plus_payload() {
    let b = MessageDataGram::create_gram_buf(10);
    assert_eq!(b.len(), 90);
    assert!(b.iter().all(|&x| x == 0));
    let c = CommandDataGram::create_gram_buf(0);
    assert_eq!(c.len(), 56);
    assert!(c.iter().all(|&x| x == 0));
}

#[test]
fn fresh_message_buffer_after_stamp() {
    let mut buf = MessageDataGram::create_gram_buf(4);
    assert!(!MessageDataGram::is_message_from_bytes(&buf));
    let m = MessageDataGram::create_message_data_gram_by_mut_vec8(&mut buf);
    assert_eq!(m.bitcomm(), BitcommFlag::bitcomm_message());
    assert_eq!(m.version(), BitcommVersion::bitcomm_version_0_1_0_1());
    assert_eq!(m.datasize(), 4);
    assert_eq!(m.command(), BitCommand(0));
    assert_eq!(m.messageid(), 0);
    assert_eq!(&buf[0..4], b"BTCM");
    assert_eq!(&buf[4..8], &[0x01, 0x00, 0x01, 0x00]);
    assert_eq!(&buf[76..80], &[4, 0, 0, 0]);
    assert!(MessageDataGram::is_message_from_bytes(&buf));
    assert!(!CommandDataGram::is_command_from_bytes(&buf));
}

#[test]
fn stamp_keeps_other_bytes_of_the_buffer() {
    let mut buf: Vec<u8> = (0..100u8).collect();
    let m = MessageDataGram::create_message_data_gram_by_mut_u8(&mut buf[..]);
    assert_eq!(m.datasize(), 20);
    assert_eq!(m.messageid(), u32::from_le_bytes([28, 29, 30, 31]));
    assert_eq!(&buf[8..76], &(8..76u8).collect::<Vec<u8>>()[..]);
    assert_eq!(&buf[80..], &(80..100u8).collect::<Vec<u8>>()[..]);
}

#[test]
fn short_buffer_is_not_a_message() {
    let mut buf = vec![0u8; 79];
    buf[0..4].copy_from_slice(b"BTCM");
    assert!(!MessageDataGram::is_message_from_bytes(&buf));
    buf.push(0);
    assert!(MessageDataGram::is_message_from_bytes(&buf));
    assert!(!MessageDataGram::is_message_from_bytes(&[]));
}

#[test]
fn message_write_then_read_roundtrip() {
    let m = filled_message();
    let mut buf = vec![0xAAu8; 90];
    m.write_to_u8(&mut buf);
    let r = MessageDataGram::get_message_data_gram_by_u8(&buf);
    assert_eq!(r.sender(), ClientID::new(ClientPlanet::planet_mar(), 11));
    assert_eq!(r.receiver(), ClientID::new(ClientPlanet::planet_earth(), 22));
    assert_eq!(r.messageid(), 1234);
    assert_eq!(r.refmessageid(), 99);
    assert_eq!(r.messagetype().bits(), 2);
    assert_eq!(r.sendertype(), ClientType::client_people());
    assert_eq!(r.receivertype(), ClientType::client_group());
    assert_eq!(r.datasize(), 17);
    assert_eq!(r.command(), BitCommand::send_mess());
    assert_eq!(&buf[80..], &[0xAA; 10]);
    // Layout: sender planet at 12, sender object at 16, messageid at 28.
    assert_eq!(&buf[12..16], &[0x10, 0, 0, 0]);
    assert_eq!(&buf[16..20], &[11, 0, 0, 0]);
    assert_eq!(&buf[28..32], &1234u32.to_le_bytes());
}

#[test]
fn message_response_sets_resp_bit_and_clears_size() {
    let m = filled_message();
    let mut buf = vec![0u8; 80];
    let r = MessageDataGram::create_message_data_gram_from_mdg_u8(&mut buf, &m);
    assert_eq!(r.command().bits(), 0x8000_0004);
    assert_eq!(r.datasize(), 0);
    assert_eq!(r.bitcomm(), m.bitcomm());
    assert_eq!(r.messageid(), 1234);
    let back = MessageDataGram::get_message_data_gram_by_u8(&buf);
    assert_eq!(back.command().bits(), 0x8000_0004);
    assert_eq!(back.datasize(), 0);
    assert_eq!(back.sender(), m.sender());
}

#[test]
fn command_buffer_must_be_exactly_a_header() {
    let mut buf = CommandDataGram::create_gram_buf(0);
    let c = CommandDataGram::create_command_data_gram_by_mut_vec8(&mut buf);
    assert_eq!(c.bitcomm(), BitcommFlag::bitcomm_command());
    assert_eq!(c.datasize(), 0);
    assert_eq!(&buf[0..4], b"BTCC");
    assert!(CommandDataGram::is_command_from_bytes(&buf));
    assert!(!MessageDataGram::is_message_from_bytes(&buf));

    let mut longer = CommandDataGram::create_gram_buf(8);
    let c2 = CommandDataGram::create_command_data_gram_by_mut_vec8(&mut longer);
    assert_eq!(c2.datasize(), 8);
    assert!(!CommandDataGram::is_command_from_bytes(&longer));
}

#[test]
fn command_fields_set_in_place_reach_the_buffer() {
    let mut buf = vec![0xFFu8; 56];
    CommandDataGram::create_command_data_gram_by_mut_u8(&mut buf)
        .set_command(BitCommand::login_command())
        .set_deviceid(0x0102_0304_0506_0708)
        .set_sender(ClientID::new(ClientPlanet::planet_mar(), 5))
        .set_sendertype(ClientType::client_device())
        .set_messagetype(MessageType::mess_text())
        .set_messageid(77)
        .set_returncode(ReturnCode::return_error1())
        .set_datasize(3);
    let r = CommandDataGram::get_command_data_gram_by_u8(&buf);
    assert_eq!(r.bitcomm(), BitcommFlag::bitcomm_command());
    assert_eq!(r.deviceid(), 0x0102_0304_0506_0708);
    assert_eq!(r.sender(), ClientID::new(ClientPlanet::planet_mar(), 5));
    assert_eq!(r.returncode(), ReturnCode::return_error1());
    assert_eq!(r.messageid(), 77);
    assert_eq!(r.datasize(), 3);
    assert_eq!(&buf[12..16], &[0xFF; 4]);
    assert_eq!(&buf[16..24], &[8, 7, 6, 5, 4, 3, 2, 1]);
}

#[test]
fn command_write_then_read_roundtrip() {
    let mut src = vec![0u8; 56];
    let c = CommandDataGram::create_command_data_gram_by_mut_u8(&mut src).get();
    let mut c = c;
    c.set_deviceid(9).set_messageid(4);
    let mut buf = vec![0xFFu8; 56];
    c.write_to_u8(&mut buf);
    let r = CommandDataGram::get_command_data_gram_by_u8(&buf);
    assert_eq!(r.deviceid(), 9);
    assert_eq!(r.messageid(), 4);
    assert_eq!(r.bitcomm(), BitcommFlag::bitcomm_command());
    assert_eq!(&buf[12..16], &[0, 0, 0, 0]);
    assert_eq!(&buf[52..56], &[0, 0, 0, 0]);
}

#[test]
fn command_device_id_set_on_stamp_reads_back() {
    let mut buf = CommandDataGram::create_gram_buf(0);
    CommandDataGram::create_command_data_gram_by_mut_vec8(&mut buf).set_deviceid(9);
    let r = CommandDataGram::get_command_data_gram_by_u8(&buf);
    assert_eq!(r.bitcomm(), BitcommFlag::bitcomm_command());
    assert_eq!(r.version(), BitcommVersion::bitcomm_version_0_1_0_1());
    assert_eq!(r.datasize(), 0);
    assert_eq!(r.deviceid(), 9);
    assert_eq!(r.messageid(), 0);
    assert_eq!(r.returncode(), ReturnCode::return_ok());
}

#[test]
fn message_id_set_on_stamp_reads_back() {
    let mut buf = MessageDataGram::create_gram_buf(7);
    MessageDataGram::create_message_data_gram_by_mut_u8(&mut buf).set_messageid(42);
    let r = MessageDataGram::get_message_data_gram_by_u8(&buf);
    assert_eq!(r.bitcomm(), BitcommFlag::bitcomm_message());
    assert_eq!(r.version(), BitcommVersion::bitcomm_version_0_1_0_1());
    assert_eq!(r.datasize(), 7);
    assert_eq!(r.messageid(), 42);
    assert_eq!(r.command().bits(), 0);
    assert_eq!(r.sender(), ClientID::new(ClientPlanet::planet_earth(), 0));
}

#[test]
fn header_in_place_reads_its_fields() {
    let mut buf = MessageDataGram::create_gram_buf(2);
    let mut m = MessageDataGram::create_message_data_gram_by_mut_vec8(&mut buf);
    m.set_receiver(ClientID::new(ClientPlanet::planet_mar(), 8));
    assert_eq!(m.receiver(), ClientID::new(ClientPlanet::planet_mar(), 8));
    assert_eq!(m.datasize(), 2);
    assert_eq!(m.get().receiver(), ClientID::new(ClientPlanet::planet_mar(), 8));
    assert_eq!(&buf[36..44], &[0x10, 0, 0, 0, 8, 0, 0, 0]);
}

#[test]
fn command_response_keeps_datasize_and_sets_resp_bit() {
    let mut src = CommandDataGram::create_gram_buf(0);
    let mut req_in_place = CommandDataGram::create_command_data_gram_by_mut_vec8(&mut src);
    req_in_place.set_command(BitCommand::logout_command()).set_datasize(12).set_messageid(5);
    let req = req_in_place.get();
    let mut out = vec![0u8; 60];
    let resp = CommandDataGram::create_command_gram_from_gram(&mut out, &req);
    assert_eq!(resp.command().bits(), 0x8000_0002);
    assert_eq!(resp.datasize(), 12);
    assert_eq!(resp.messageid(), 5);
    let back = CommandDataGram::get_command_data_gram_by_u8(&out);
    assert_eq!(back.command().bits(), 0x8000_0002);
    assert_eq!(back.datasize(), 12);
    assert_eq!(&out[56..], &[0, 0, 0, 0]);
}

#[test]
fn flag_words() {
    assert_eq!(BitcommFlag::bitcomm_message().bits(), 0x4D43_5442);
    assert_eq!(BitcommFlag::bitcomm_command().bits(), 0x4343_5442);
    assert_eq!(BitcommFlag::bitcomm_nodef().bits(), 0xFFFF_FFFF);
    assert_eq!(BitcommVersion::bitcomm_version_0_1_0_1().bits(), 0x0001_0001);
    assert_eq!(BitCommand::resp_mask().bits(), 0x8000_0000);
    assert_eq!(
        BitCommand::login_command().union(BitCommand::resp_mask()),
        BitCommand(0x8000_0001)
    );
    assert_eq!(MessageType::mess_postion().bits(), 5);
    assert_eq!(ReturnCode::return_ok().bits(), 0);
}

#[test]
fn datagram_error_keeps_code_and_details() {
    let mut e = DataGramError::new(7, "bad header");
    assert_eq!(*e.errcode(), 7);
    assert_eq!(e.details(), "bad header");
    assert_eq!(e.description(), "bad header");
    e.set_errcode(8).set_details(String::from("short buffer"));
    assert_eq!(*e.errcode(), 8);
    assert_eq!(e.description(), "short buffer");
}

#[test]
fn inner_datagram_carries_buffer_and_header() {
    let mut buf = CommandDataGram::create_gram_buf(0);
    let c = CommandDataGram::create_command_data_gram_by_mut_vec8(&mut buf).get();
    let inner = InnerDataGram::Command {
        reqcmdbuff: Arc::new(bytes::Bytes::from(buf.clone())),
        reqcmdgram: Arc::new(c),
    };
    match inner {
        InnerDataGram::Command { reqcmdbuff, reqcmdgram } => {
            assert_eq!(reqcmdbuff.len(), 56);
            assert_eq!(reqcmdgram.bitcomm(), BitcommFlag::bitcomm_command());
        }
        InnerDataGram::Message { .. } => panic!("expected a command"),
    }
}
