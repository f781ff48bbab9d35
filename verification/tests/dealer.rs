use rand::{rngs::StdRng, SeedableRng};

use secret_sharing::{
    BivariatePolynomial, Error, HandoffKind, PlainDealer, PlainScalar, Shareholder,
};

fn coefficients(p: &secret_sharing::Polynomial<PlainScalar>) -> Vec<u64> {
    let mut out = Vec::new();
    for k in 0..p.size() {
        out.push(p.coefficient(k).v);
    }
    out
}

fn table(rows: &[&[u64]]) -> BivariatePolynomial<PlainScalar> {
    let mut bp = BivariatePolynomial::zero(rows.len() - 1, rows[0].len() - 1);
    for i in 0..rows.len() {
        for j in 0..rows[i].len() {
            bp.b[i][j] = PlainScalar { v: rows[i][j] };
        }
    }
    bp
}

#[test]
fn test_new() {
    let mut rng: StdRng = SeedableRng::from_seed([1u8; 32]);

    let threshold = 2;
    for dealing_phase in vec![true, false] {
        let dealer = PlainDealer::new(threshold, dealing_phase, &mut rng);
        assert_eq!(dealer.verification_matrix().is_zero_hole(), !dealing_phase);
        assert_eq!(dealer.bivariate_polynomial().deg_x, 2);
        assert_eq!(dealer.bivariate_polynomial().deg_y, 4);
        assert_eq!(dealer.verification_matrix().rows, 3);
        assert_eq!(dealer.verification_matrix().cols, 5);
    }

    let threshold = 0;
    for dealing_phase in vec![true, false] {
        let dealer = PlainDealer::new(threshold, dealing_phase, &mut rng);
        assert_eq!(dealer.verification_matrix().is_zero_hole(), !dealing_phase);
        assert_eq!(dealer.bivariate_polynomial().deg_x, 0);
        assert_eq!(dealer.bivariate_polynomial().deg_y, 0);
        assert_eq!(dealer.verification_matrix().rows, 1);
        assert_eq!(dealer.verification_matrix().cols, 1);
    }
}

#[test]
fn test_from() {
    let bp = BivariatePolynomial::zero(2, 3);
    let _ = PlainDealer::from(bp);
}

#[test]
fn test_random() {
    let mut rng: StdRng = SeedableRng::from_seed([1u8; 32]);
    let dealer = PlainDealer::random(2, 3, &mut rng);
    assert!(!dealer.verification_matrix().is_zero_hole()); // Zero-hole with negligible probability.
}

#[test]
fn test_zero_hole() {
    let mut rng: StdRng = SeedableRng::from_seed([1u8; 32]);
    let dealer = PlainDealer::zero_hole(2, 3, &mut rng);
    assert!(dealer.verification_matrix().is_zero_hole());
}

#[test]
fn test_derive_bivariate_share() {
    let mut rng: StdRng = SeedableRng::from_seed([1u8; 32]);
    let dealer = PlainDealer::random(2, 3, &mut rng);
    let id = Shareholder([1; 32]);

    let p = dealer
        .derive_bivariate_share(id.clone(), HandoffKind::DealingPhase)
        .expect("shareholder should encode");
    assert_eq!(p.degree(), 3);
    assert_eq!(p.size(), 4);

    let p = dealer
        .derive_bivariate_share(id.clone(), HandoffKind::CommitteeChanged)
        .expect("shareholder should encode");
    assert_eq!(p.degree(), 2);
    assert_eq!(p.size(), 3);

    let p = dealer
        .derive_bivariate_share(id, HandoffKind::CommitteeUnchanged)
        .expect("shareholder should encode");
    assert_eq!(p.degree(), 3);
    assert_eq!(p.size(), 4);
}

#[test]
fn test_new_largest_threshold() {
    let mut rng: StdRng = SeedableRng::from_seed([7u8; 32]);
    let dealer = PlainDealer::new(255, false, &mut rng);
    assert_eq!(dealer.bivariate_polynomial().deg_x, 255);
    assert_eq!(dealer.bivariate_polynomial().deg_y, 510);
    assert_eq!(dealer.verification_matrix().rows, 256);
    assert_eq!(dealer.verification_matrix().cols, 511);
    assert!(dealer.verification_matrix().is_zero_hole());
}

#[test]
fn test_share_sizes_for_threshold() {
    let mut rng: StdRng = SeedableRng::from_seed([3u8; 32]);
    let dealer = PlainDealer::new(2, true, &mut rng);
    let id = Shareholder([9; 32]);
    let along_x = dealer
        .derive_bivariate_share(id, HandoffKind::DealingPhase)
        .unwrap();
    assert_eq!(along_x.degree(), 4);
    assert_eq!(along_x.size(), 5);
    let unchanged = dealer
        .derive_bivariate_share(id, HandoffKind::CommitteeUnchanged)
        .unwrap();
    assert_eq!(coefficients(&unchanged), coefficients(&along_x));
    let along_y = dealer
        .derive_bivariate_share(id, HandoffKind::CommitteeChanged)
        .unwrap();
    assert_eq!(along_y.degree(), 2);
    assert_eq!(along_y.size(), 3);
}

#[test]
fn test_share_values() {
    // b(x, y) = 1 + 2y + 3y^2 + x (4 + 5y + 6y^2)
    let dealer = PlainDealer::from(table(&[&[1, 2, 3], &[4, 5, 6]]));
    let two = PlainScalar { v: 2 };
    let p = dealer.share_at(&two, HandoffKind::DealingPhase);
    assert_eq!(coefficients(&p), vec![9, 12, 15]);
    let p = dealer.share_at(&two, HandoffKind::CommitteeUnchanged);
    assert_eq!(coefficients(&p), vec![9, 12, 15]);
    let p = dealer.share_at(&two, HandoffKind::CommitteeChanged);
    assert_eq!(coefficients(&p), vec![17, 38]);
}

#[test]
fn test_share_through_encoding() {
    // The identifier below encodes as 2.
    let mut bytes = [0u8; 32];
    bytes[31] = 2;
    let dealer = PlainDealer::from(table(&[&[1, 2, 3], &[4, 5, 6]]));
    let p = dealer
        .derive_bivariate_share(Shareholder(bytes), HandoffKind::DealingPhase)
        .unwrap();
    assert_eq!(coefficients(&p), vec![9, 12, 15]);
    let p = dealer
        .derive_bivariate_share(Shareholder(bytes), HandoffKind::CommitteeChanged)
        .unwrap();
    assert_eq!(coefficients(&p), vec![17, 38]);
}

#[test]
fn test_share_is_deterministic() {
    let mut rng: StdRng = SeedableRng::from_seed([5u8; 32]);
    let dealer = PlainDealer::new(3, true, &mut rng);
    let id = Shareholder([42; 32]);
    for kind in [
        HandoffKind::DealingPhase,
        HandoffKind::CommitteeChanged,
        HandoffKind::CommitteeUnchanged,
    ] {
        let first = dealer.derive_bivariate_share(id, kind).unwrap();
        let second = dealer.derive_bivariate_share(id, kind).unwrap();
        assert_eq!(coefficients(&first), coefficients(&second));
    }
}

#[test]
fn test_unencodable_shareholder() {
    let mut rng: StdRng = SeedableRng::from_seed([1u8; 32]);
    let dealer = PlainDealer::new(1, true, &mut rng);
    let r = dealer.derive_bivariate_share(Shareholder([0; 32]), HandoffKind::DealingPhase);
    assert!(matches!(r, Err(Error::ShareholderEncodingFailed)));
    assert_eq!(
        Error::ShareholderEncodingFailed.message(),
        "shareholder encoding failed"
    );
}

#[test]
fn test_from_matches_constant_term() {
    let dealer = PlainDealer::from(table(&[&[0, 2], &[4, 5]]));
    assert!(dealer.bivariate_polynomial().is_zero_hole());
    assert!(dealer.verification_matrix().is_zero_hole());

    let dealer = PlainDealer::from(table(&[&[7, 0], &[0, 0]]));
    assert!(!dealer.bivariate_polynomial().is_zero_hole());
    assert!(!dealer.verification_matrix().is_zero_hole());

    // A representative of zero other than 0 itself.
    let dealer = PlainDealer::from(table(&[&[2305843009213693951]]));
    assert!(dealer.bivariate_polynomial().is_zero_hole());
    assert!(dealer.verification_matrix().is_zero_hole());
}

#[test]
fn test_random_draws_from_the_generator() {
    let mut rng1: StdRng = SeedableRng::from_seed([1u8; 32]);
    let mut rng2: StdRng = SeedableRng::from_seed([1u8; 32]);
    let mut rng3: StdRng = SeedableRng::from_seed([2u8; 32]);
    let a: BivariatePolynomial<PlainScalar> = BivariatePolynomial::random(2, 4, &mut rng1);
    let b: BivariatePolynomial<PlainScalar> = BivariatePolynomial::random(2, 4, &mut rng2);
    let c: BivariatePolynomial<PlainScalar> = BivariatePolynomial::random(2, 4, &mut rng3);
    assert_eq!(a.b, b.b);
    assert_ne!(a.b, c.b);
    // The generator has moved on: the next polynomial differs.
    let d: BivariatePolynomial<PlainScalar> = BivariatePolynomial::random(2, 4, &mut rng1);
    assert_ne!(a.b, d.b);
    // Fifteen draws are not all the same word.
    assert!(a.b.iter().flatten().any(|s| s.v != a.b[0][0].v));
}
