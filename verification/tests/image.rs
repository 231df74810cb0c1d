use ratputer::image::{check_command, verify_headers, HeaderError};

fn image() -> Vec<u8> {
    let mut image = vec![0_u8; 0x10010];
    image[0] = 0xe9;
    image[2] = 0x02;
    image[0x8000] = 0xaa;
    image[0x8001] = 0x50;
    image[0x10000] = 0xe9;
    image[0x10002] = 0x02;
    image
}

#[test]
fn good_image_passes() {
    assert!(verify_headers(&image()).is_ok());
}

#[test]
fn first_bad_header_is_reported() {
    let mut bad = image();
    bad[2] = 0x00;
    bad[0x8000] = 0;
    match verify_headers(&bad) {
        Err(error) => assert_eq!(
            error.message(),
            "invalid header at 0x2: expected [02], got [00]"
        ),
        Ok(()) => panic!("accepted"),
    }
    let mut bad = image();
    bad[0x8001] = 0x1f;
    match verify_headers(&bad) {
        Err(error) => assert_eq!(
            error.message(),
            "invalid header at 0x8000: expected [aa, 50], got [aa, 1f]"
        ),
        Ok(()) => panic!("accepted"),
    }
}

#[test]
fn short_image_is_reported() {
    match verify_headers(&image()[..0x8001]) {
        Err(error) => {
            assert!(matches!(error, HeaderError::Short { offset: 0x8000 }));
            assert_eq!(error.message(), "cannot read header at 0x8000");
        }
        Ok(()) => panic!("accepted"),
    }
}

#[test]
fn only_build_is_known() {
    assert_eq!(check_command("build"), Ok(()));
    assert_eq!(
        check_command("Build"),
        Err(String::from("unknown command `Build`; expected `build`"))
    );
}
