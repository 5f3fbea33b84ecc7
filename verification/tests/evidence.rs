use augur::evidence::{Confidence, ConfidenceError, FieldEvidence, Privacy};

#[test]
fn confidence_rejects_out_of_range() {
    assert_eq!(Confidence::new(1.5f32.to_bits()).err(), Some(ConfidenceError::OutOfRange));
    assert_eq!(Confidence::new((-0.1f32).to_bits()).err(), Some(ConfidenceError::OutOfRange));
}

#[test]
fn confidence_rejects_nan() {
    // `NaN < threshold` is false, so a NaN confidence would pass every "is
    // this too uncertain to act on" check in the pipeline.
    assert_eq!(Confidence::new(f32::NAN.to_bits()).err(), Some(ConfidenceError::NotANumber));
}

#[test]
fn confidence_accepts_the_closed_interval() {
    assert_eq!(Confidence::new(0.0f32.to_bits()).map(Confidence::get), Ok(0.0f32.to_bits()));
    assert_eq!(Confidence::new(1.0f32.to_bits()).map(Confidence::get), Ok(1.0f32.to_bits()));
}

#[test]
fn confidence_edges_of_the_interval() {
    // Negative zero is equal to zero, so it is inside the interval.
    assert!(Confidence::new((-0.0f32).to_bits()).is_ok());
    // The smallest positive subnormal and the largest value below one.
    assert!(Confidence::new(f32::from_bits(1).to_bits()).is_ok());
    assert!(Confidence::new(0.999_999_94f32.to_bits()).is_ok());
    // The next value above one, the infinities, the smallest negative value.
    assert_eq!(Confidence::new(1.000_000_1f32.to_bits()).err(), Some(ConfidenceError::OutOfRange));
    assert_eq!(Confidence::new(f32::INFINITY.to_bits()).err(), Some(ConfidenceError::OutOfRange));
    assert_eq!(Confidence::new(f32::NEG_INFINITY.to_bits()).err(), Some(ConfidenceError::OutOfRange));
    assert_eq!(Confidence::new(f32::from_bits(0x8000_0001).to_bits()).err(), Some(ConfidenceError::OutOfRange));
    // Every NaN, whatever its sign and payload.
    assert_eq!(Confidence::new(0xffc0_0000).err(), Some(ConfidenceError::NotANumber));
    assert_eq!(Confidence::new(0x7f80_0001).err(), Some(ConfidenceError::NotANumber));
}

#[test]
fn confidence_holds_the_value_it_was_given() {
    let c = Confidence::new(0.93f32.to_bits()).unwrap();
    assert_eq!(f32::from_bits(c.get()), 0.93f32);
    assert_eq!(f32::from_bits(Confidence::none().get()), 0.0);
    assert_eq!(f32::from_bits(Confidence::certain().get()), 1.0);
}

#[test]
fn confidence_compares_as_the_number_it_holds() {
    let zero = Confidence::new(0.0f32.to_bits()).unwrap();
    let negative_zero = Confidence::new((-0.0f32).to_bits()).unwrap();
    let half = Confidence::new(0.5f32.to_bits()).unwrap();
    let one = Confidence::certain();
    assert_eq!(zero, negative_zero);
    assert_ne!(zero, half);
    assert!(zero < half);
    assert!(half < one);
    assert!(negative_zero < half);
    assert!(!(zero < negative_zero));
    assert_eq!(zero.partial_cmp(&negative_zero), Some(std::cmp::Ordering::Equal));
    assert_eq!(one.partial_cmp(&half), Some(std::cmp::Ordering::Greater));
}

#[test]
fn confidence_error_messages() {
    assert_eq!(ConfidenceError::OutOfRange.message(), "confidence must be within 0.0..=1.0");
    assert_eq!(ConfidenceError::NotANumber.message(), "confidence must not be NaN");
}

#[test]
fn field_evidence_carries_field_and_confidence() {
    let evidence = FieldEvidence {
        field: "gold".to_string(),
        confidence: Confidence::new(0.99f32.to_bits()).unwrap(),
    };
    assert_eq!(evidence.clone(), evidence);
    assert_ne!(Privacy::LocalFrameTransient, Privacy::UserRetained);
}
