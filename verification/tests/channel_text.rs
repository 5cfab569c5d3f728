use pc_emulator::emulator::{
    decode_request, driver_for, is_well_formed, reply_text, request_from_line, DriverKind,
    Request, ReturnCode, Syscall, ALARM_DRIVER_NUM, LED_DRIVER_NUM,
};
use pc_emulator::text::{field_value_at, format_signed, format_unsigned, parse_args};

#[test]
fn syscall_numbers_decode_in_order() {
    assert_eq!(Syscall::from_usize(0), Some(Syscall::Command));
    assert_eq!(Syscall::from_usize(1), Some(Syscall::Subscribe));
    assert_eq!(Syscall::from_usize(2), Some(Syscall::Yield));
    assert_eq!(Syscall::from_usize(3), None);
    assert_eq!(Syscall::from_usize(usize::MAX), None);
}

#[test]
fn driver_numbers() {
    assert_eq!(ALARM_DRIVER_NUM, 0);
    assert_eq!(LED_DRIVER_NUM, 2);
    assert_eq!(driver_for(0), Some(DriverKind::Alarm));
    assert_eq!(driver_for(2), Some(DriverKind::Led));
    assert_eq!(driver_for(1), None);
    assert_eq!(driver_for(3), None);
}

#[test]
fn return_code_numbers() {
    assert_eq!(isize::from(ReturnCode::SUCCESS), 0);
    assert_eq!(isize::from(ReturnCode::FAIL), -1);
    assert_eq!(isize::from(ReturnCode::EINVAL), -6);
    assert_eq!(isize::from(ReturnCode::ENOSUPPORT), -10);
    assert_eq!(isize::from(ReturnCode::ENODEVICE), -11);
    assert_eq!(isize::from(ReturnCode::ENOACK), -13);
    assert_eq!(isize::from(ReturnCode::SuccessWithValue { value: 7 }), 7);
    assert_eq!(isize::from(ReturnCode::SuccessWithValue { value: usize::MAX }), -1);
    let n: isize = ReturnCode::EBUSY.into();
    assert_eq!(n, -2);
}

#[test]
fn requests_decode_from_arguments() {
    assert_eq!(decode_request(&vec![0, 5]), Request::NoDevice);
    assert_eq!(
        decode_request(&vec![9, LED_DRIVER_NUM]),
        Request::UnknownSyscall { driver: DriverKind::Led }
    );
    assert_eq!(
        decode_request(&vec![0, LED_DRIVER_NUM, 1, 0, 0]),
        Request::Command { driver: DriverKind::Led, minor_num: 1, arg1: 0, arg2: 0 }
    );
    assert_eq!(
        decode_request(&vec![1, ALARM_DRIVER_NUM, 0, 4096, 77]),
        Request::Subscribe {
            driver: DriverKind::Alarm,
            driver_num: 0,
            subscribe_num: 0,
            callback: 4096,
            appdata: 77,
        }
    );
    assert_eq!(
        decode_request(&vec![2, LED_DRIVER_NUM, 3, 8192, 16]),
        Request::Allow { driver: DriverKind::Led, allow_num: 3, address: 8192, len: 16 }
    );
}

#[test]
fn well_formed_arguments() {
    assert!(!is_well_formed(&vec![]));
    assert!(!is_well_formed(&vec![0]));
    assert!(is_well_formed(&vec![0, 7]));
    assert!(is_well_formed(&vec![9, 2]));
    assert!(!is_well_formed(&vec![0, 2, 1, 0]));
    assert!(is_well_formed(&vec![0, 2, 1, 0, 0]));
    assert!(!is_well_formed(&vec![1, 0, 0, 0, 5]));
    assert!(is_well_formed(&vec![1, 0, 0, 1, 5]));
    assert!(!is_well_formed(&vec![2, 2, 0, 0, 5]));
}

#[test]
fn rejections() {
    assert_eq!(Request::NoDevice.rejection(), Some(ReturnCode::ENODEVICE));
    assert_eq!(
        Request::UnknownSyscall { driver: DriverKind::Alarm }.rejection(),
        Some(ReturnCode::EINVAL)
    );
    assert_eq!(
        Request::Command { driver: DriverKind::Led, minor_num: 0, arg1: 0, arg2: 0 }.rejection(),
        None
    );
}

#[test]
fn requests_from_lines() {
    assert_eq!(
        request_from_line(b"0,2,1,0,0"),
        Some(Request::Command { driver: DriverKind::Led, minor_num: 1, arg1: 0, arg2: 0 })
    );
    assert_eq!(request_from_line(b"0,7"), Some(Request::NoDevice));
    assert_eq!(
        request_from_line(b"5,2"),
        Some(Request::UnknownSyscall { driver: DriverKind::Led })
    );
    assert_eq!(request_from_line(b"1,0,0,0,5"), None);
    assert_eq!(request_from_line(b"0"), None);
    assert_eq!(request_from_line(b""), None);
    assert_eq!(
        request_from_line(b"0,x,2,1,0,0"),
        Some(Request::Command { driver: DriverKind::Led, minor_num: 1, arg1: 0, arg2: 0 })
    );
}

#[test]
fn replies_are_decimal() {
    assert_eq!(reply_text(ReturnCode::ENODEVICE), b"-11".to_vec());
    assert_eq!(reply_text(ReturnCode::SUCCESS), b"0".to_vec());
    assert_eq!(reply_text(ReturnCode::SuccessWithValue { value: 42 }), b"42".to_vec());
    assert_eq!(reply_text(ReturnCode::EINVAL), b"-6".to_vec());
}

#[test]
fn parse_args_splits_and_skips() {
    assert_eq!(parse_args(b"1,2,3"), vec![1, 2, 3]);
    assert_eq!(parse_args(b"1,,x,+4, 5,6"), vec![1, 4, 6]);
    assert_eq!(parse_args(b""), Vec::<usize>::new());
    assert_eq!(parse_args(b","), Vec::<usize>::new());
    assert_eq!(parse_args(b"007"), vec![7]);
    assert_eq!(parse_args(b"18446744073709551615"), vec![usize::MAX]);
    assert_eq!(parse_args(b"18446744073709551616,1"), vec![1]);
    assert_eq!(parse_args(b"+,-1,+-1,++1"), Vec::<usize>::new());
}

#[test]
fn field_value_matches_std_parse() {
    let cases: [&[u8]; 10] = [b"0", b"42", b"+42", b"+", b"", b"-0", b"4a", b"99999999999999999999", b"1 ", b"+0"];
    for c in cases.iter() {
        let expected = std::str::from_utf8(c).unwrap().parse::<usize>().ok();
        assert_eq!(field_value_at(c, 0, c.len()), expected);
    }
    assert_eq!(field_value_at(b"12,34", 3, 5), Some(34));
}

#[test]
fn formatting_matches_std() {
    for n in [0usize, 9, 10, 99, 100, 12345, usize::MAX] {
        assert_eq!(format_unsigned(n), n.to_string().into_bytes());
    }
    for n in [0isize, -1, 5, -13, isize::MAX, isize::MIN] {
        assert_eq!(format_signed(n), n.to_string().into_bytes());
    }
}

#[test]
fn unparsable_fields_play_no_part() {
    assert_eq!(request_from_line(b"x,5,0"), request_from_line(b"5,0"));
    assert_eq!(request_from_line(b"x,0,2,,1,+0, 7,0"), request_from_line(b"0,2,1,+0,0"));
    assert_eq!(parse_args(b"x,0,2,,1,+0, 7,0"), parse_args(b"0,2,1,+0,0"));
    assert_eq!(request_from_line(b"a,b"), request_from_line(b""));
}

#[test]
fn written_arguments_read_back() {
    let args = vec![0usize, 2, 1, 4096, usize::MAX];
    let mut line: Vec<u8> = Vec::new();
    for (i, a) in args.iter().enumerate() {
        if i > 0 {
            line.push(b',');
        }
        line.extend(format_unsigned(*a));
    }
    assert_eq!(parse_args(&line), args);
}
