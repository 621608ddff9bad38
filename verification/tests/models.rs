use akinator::{Error, ErrorKind, Guess};

fn sample(confidence: &str) -> Guess {
    Guess::new(
        "84017".to_string(),
        "Ada Lovelace".to_string(),
        "-1".to_string(),
        3,
        confidence.to_string(),
        "Mathematician".to_string(),
        "2015".to_string(),
        "partenaire/q/84017.jpg".to_string(),
        "https://photos.example/partenaire/q/84017.jpg".to_string(),
    )
}

#[test]
fn a_guess_hands_out_what_it_holds() {
    let guess = sample("0.973214");
    assert_eq!(guess.id(), "84017");
    assert_eq!(guess.name(), "Ada Lovelace");
    assert_eq!(guess.award_id(), "-1");
    assert_eq!(guess.flag_photo(), 3);
    assert_eq!(guess.confidence(), "0.973214");
    assert_eq!(guess.description(), "Mathematician");
    assert_eq!(guess.ranking(), "2015");
    assert_eq!(guess.picture_path(), "partenaire/q/84017.jpg");
    assert_eq!(guess.absolute_picture_path(), "https://photos.example/partenaire/q/84017.jpg");
}

#[test]
fn a_guess_is_shown_with_id_name_and_ranking() {
    assert_eq!(
        sample("0.5").repr(),
        "<Guess id=\"84017\" name=\"Ada Lovelace\" ranking=2015>"
    );
}

#[test]
fn a_copy_of_a_guess_equals_it() {
    let guess = sample("0.25");
    let copy = guess.clone();
    assert_eq!(copy, guess);
    assert_eq!(copy.confidence(), "0.25");
}

fn read(guess: &Guess) -> Result<f32, Error> {
    let parsed = guess.confidence().parse::<f32>().ok().map(f32::to_bits);
    Guess::read_confidence(parsed).map(f32::from_bits)
}

#[test]
fn a_confidence_that_reads_as_a_number_is_kept_to_the_letter() {
    let guess = sample("0.973214");
    assert_eq!(read(&guess), Ok(0.973214f32));
    assert_eq!(Guess::read_confidence(Some(0.973214f32.to_bits())), Ok(0.973214f32.to_bits()));
    for text in ["0", "-0.0", "1", "100", "99.5", "1e-5", "+.5", "3."] {
        let value: f32 = text.parse().unwrap();
        assert_eq!(read(&sample(text)), Ok(value), "{text}");
    }
}

#[test]
fn a_confidence_that_is_no_number_stays_text_and_fails_to_read() {
    let guess = sample("abc");
    assert_eq!(guess.confidence(), "abc");
    let result = read(&guess);
    assert_eq!(result, Err(Error::InvalidConfidence));
    assert_eq!(result.unwrap_err().kind(), ErrorKind::ValueError);
    assert_ne!(read(&guess).ok(), Some(0.0));
    for text in ["", " ", "0,5", "1.2.3", "0x10", "--1", "e5"] {
        assert_eq!(read(&sample(text)), Err(Error::InvalidConfidence), "{text}");
    }
}

#[test]
fn a_confidence_that_reads_as_infinity_or_no_number_fails_to_read() {
    for text in ["NaN", "nan", "inf", "-inf", "infinity", "+Infinity", "1e999"] {
        assert!(text.parse::<f32>().is_ok(), "{text}");
        let result = read(&sample(text));
        assert_eq!(result, Err(Error::InvalidConfidence), "{text}");
        assert_eq!(result.unwrap_err().kind(), ErrorKind::ValueError);
    }
}

#[test]
fn only_the_bits_of_a_finite_number_are_a_confidence() {
    assert_eq!(Guess::read_confidence(None), Err(Error::InvalidConfidence));
    assert_eq!(Guess::read_confidence(Some(0)), Ok(0));
    assert_eq!(Guess::read_confidence(Some(0x8000_0000)), Ok(0x8000_0000));
    assert_eq!(Guess::read_confidence(Some(0x42C8_0000)), Ok(0x42C8_0000));
    assert_eq!(f32::from_bits(0x42C8_0000), 100.0);
    assert_eq!(Guess::read_confidence(Some(0x7F7F_FFFF)), Ok(f32::MAX.to_bits()));
    assert_eq!(Guess::read_confidence(Some(0xFF7F_FFFF)), Ok(f32::MIN.to_bits()));
    assert_eq!(Guess::read_confidence(Some(f32::INFINITY.to_bits())), Err(Error::InvalidConfidence));
    assert_eq!(Guess::read_confidence(Some(0x7F80_0000)), Err(Error::InvalidConfidence));
    assert_eq!(Guess::read_confidence(Some(0xFF80_0000)), Err(Error::InvalidConfidence));
    assert_eq!(Guess::read_confidence(Some(f32::NAN.to_bits())), Err(Error::InvalidConfidence));
    assert_eq!(Guess::read_confidence(Some(0x7F80_0001)), Err(Error::InvalidConfidence));
    assert_eq!(Guess::read_confidence(Some(0xFFFF_FFFF)), Err(Error::InvalidConfidence));
}
