use ark_std::rand::rngs::StdRng;
use ark_std::rand::{Rng, RngCore, SeedableRng};
use vector_commitment::backend::{Bls12_381, Bn254};
use ark_bn254::{Fr, G1Projective, G2Projective};
use ark_ec::Group;
use vector_commitment::cf13::{
    commit, derive_parameters, first_nonzero, first_other_than, generate_parameters,
    generate_parameters_with_domain, open, verify, Parameters, Scheme,
};
use vector_commitment::{Error, VectorCommitment};

fn random_messages(rng: &mut StdRng, q: usize, min_len: usize, max_len: usize) -> Vec<Vec<u8>> {
    (0..q)
        .map(|_| {
            let l: usize = rng.gen_range(min_len..max_len);
            let mut msg = vec![0u8; l];
            rng.fill_bytes(&mut msg);
            msg
        })
        .collect::<Vec<_>>()
}

fn scenario_messages() -> Vec<Vec<u8>> {
    (0..8u8).map(|k| format!("message {}", k).into_bytes()).collect()
}

#[test]
fn gen_commit_verify() {
    let mut rng = StdRng::seed_from_u64(0x5eed_0001);

    let q = rng.gen_range(8..=16);
    println!("q = {}", q);

    let msgs = random_messages(&mut rng, q, 8, 256);

    let params = generate_parameters::<Bn254>(&mut rng, q).unwrap();

    let (c, aux) = commit(&params, &msgs).unwrap();

    let i: usize = rng.gen_range(0..q);
    let p = open(&params, i, &aux).unwrap();

    let msg = &msgs[i];
    let result = verify(&params, &c, msg, i, &p).unwrap();
    assert!(result);

    let msg = &msgs[(i + 1) % q];
    let result = verify(&params, &c, msg, i, &p).unwrap();
    assert!(!result);
}

fn test_vec_com<VC: VectorCommitment<Message = Vec<u8>>>(rng: &mut StdRng) {
    let q = rng.gen_range(8..=16);
    println!("q = {}", q);

    let msgs = random_messages(rng, q, 1, 33);

    let params = VC::generate_parameters(rng, q).unwrap();

    let (c, aux) = VC::commit(&params, &msgs).unwrap();

    let i: usize = rng.gen_range(0..q);
    let p = VC::open(&params, &aux, i).unwrap();

    let msg = &msgs[i];
    let result = VC::verify(&params, &c, msg, i, &p).unwrap();
    assert!(result);

    let msg = &msgs[(i + 1) % q];
    let result = VC::verify(&params, &c, msg, i, &p).unwrap();
    assert!(!result);
}

#[test]
fn test_cf13() {
    let mut rng = StdRng::seed_from_u64(0x5eed_0002);
    test_vec_com::<Scheme<Bn254>>(&mut rng);
    test_vec_com::<Scheme<Bls12_381>>(&mut rng);
}

#[test]
fn completeness_small_domains() {
    let mut rng = StdRng::seed_from_u64(7);
    for q in 1..=4usize {
        let msgs = random_messages(&mut rng, q, 0, 40);
        let params = generate_parameters::<Bn254>(&mut rng, q).unwrap();
        let (c, aux) = commit(&params, &msgs).unwrap();
        for i in 0..q {
            let p = open(&params, i, &aux).unwrap();
            assert!(verify(&params, &c, &msgs[i], i, &p).unwrap(), "q = {}, i = {}", q, i);
        }
    }
}

#[test]
fn single_index_domain() {
    let mut rng = StdRng::seed_from_u64(11);
    let params = generate_parameters::<Bn254>(&mut rng, 1).unwrap();
    let msgs = vec![b"only".to_vec()];
    let (c, aux) = commit(&params, &msgs).unwrap();
    let p = open(&params, 0, &aux).unwrap();
    // With one index the proof is the empty sum: the group identity.
    let mut identity = vec![0u8; 32];
    identity[31] = 0x40;
    assert_eq!(p.to_bytes(), identity);
    assert!(verify(&params, &c, b"only", 0, &p).unwrap());
    assert!(!verify(&params, &c, b"other", 0, &p).unwrap());
}

#[test]
fn substituted_messages_are_rejected() {
    let mut rng = StdRng::seed_from_u64(13);
    let q = 5;
    let msgs = random_messages(&mut rng, q, 1, 20);
    let params = generate_parameters::<Bn254>(&mut rng, q).unwrap();
    let (c, aux) = commit(&params, &msgs).unwrap();
    let i = 2;
    let p = open(&params, i, &aux).unwrap();
    assert!(verify(&params, &c, &msgs[i], i, &p).unwrap());
    for (k, other) in msgs.iter().enumerate() {
        if k != i {
            assert!(!verify(&params, &c, other, i, &p).unwrap(), "k = {}", k);
        }
    }
}

#[test]
fn index_out_of_range() {
    let mut rng = StdRng::seed_from_u64(17);
    let q = 3;
    let msgs = random_messages(&mut rng, q, 1, 20);
    let params = generate_parameters::<Bn254>(&mut rng, q).unwrap();
    let (c, aux) = commit(&params, &msgs).unwrap();
    let p = open(&params, 0, &aux).unwrap();
    assert!(matches!(open(&params, 3, &aux), Err(Error::IndexOutOfRange)));
    assert!(matches!(open(&params, usize::MAX, &aux), Err(Error::IndexOutOfRange)));
    assert_eq!(verify(&params, &c, &msgs[0], 3, &p), Err(Error::IndexOutOfRange));
    assert_eq!(verify(&params, &c, &msgs[0], 100, &p), Err(Error::IndexOutOfRange));
}

#[test]
fn proof_at_wrong_index_is_rejected() {
    let mut rng = StdRng::seed_from_u64(19);
    let q = 4;
    let msgs = random_messages(&mut rng, q, 1, 20);
    let params = generate_parameters::<Bn254>(&mut rng, q).unwrap();
    let (c, aux) = commit(&params, &msgs).unwrap();
    let p1 = open(&params, 1, &aux).unwrap();
    assert!(!verify(&params, &c, &msgs[1], 2, &p1).unwrap());
    assert!(!verify(&params, &c, &msgs[2], 2, &p1).unwrap());
    assert!(verify(&params, &c, &msgs[1], 1, &p1).unwrap());
}

#[test]
fn commit_rejects_wrong_length() {
    let mut rng = StdRng::seed_from_u64(23);
    let q = 3;
    let params = generate_parameters::<Bn254>(&mut rng, q).unwrap();
    let short = random_messages(&mut rng, 2, 1, 10);
    let long = random_messages(&mut rng, 4, 1, 10);
    let empty: Vec<Vec<u8>> = Vec::new();
    assert!(matches!(commit(&params, &short), Err(Error::LengthMismatch)));
    assert!(matches!(commit(&params, &long), Err(Error::LengthMismatch)));
    assert!(matches!(commit(&params, &empty), Err(Error::LengthMismatch)));
}

#[test]
fn open_rejects_aux_of_other_length() {
    let mut rng = StdRng::seed_from_u64(29);
    let params3 = generate_parameters::<Bn254>(&mut rng, 3).unwrap();
    let params2 = generate_parameters::<Bn254>(&mut rng, 2).unwrap();
    let msgs = random_messages(&mut rng, 2, 1, 10);
    let (_, aux2) = commit(&params2, &msgs).unwrap();
    assert!(matches!(open(&params3, 0, &aux2), Err(Error::LengthMismatch)));
    assert!(matches!(open(&params3, 5, &aux2), Err(Error::IndexOutOfRange)));
}

#[test]
fn empty_index_domain_is_refused() {
    let mut rng = StdRng::seed_from_u64(31);
    assert!(matches!(generate_parameters::<Bn254>(&mut rng, 0), Err(Error::EmptyIndexDomain)));
    assert!(matches!(
        <Scheme<Bn254> as VectorCommitment>::generate_parameters(&mut rng, 0),
        Err(Error::EmptyIndexDomain)
    ));
}

#[test]
fn commit_and_open_are_deterministic() {
    let mut rng = StdRng::seed_from_u64(37);
    let q = 4;
    let msgs = random_messages(&mut rng, q, 1, 30);
    let params = generate_parameters::<Bn254>(&mut rng, q).unwrap();
    let (c1, aux1) = commit(&params, &msgs).unwrap();
    let (c2, aux2) = commit(&params, &msgs).unwrap();
    assert_eq!(c1.to_bytes(), c2.to_bytes());
    assert_eq!(c1.to_bytes().len(), 32);
    for i in 0..q {
        let p1 = open(&params, i, &aux1).unwrap();
        let p2 = open(&params, i, &aux1).unwrap();
        let p3 = open(&params, i, &aux2).unwrap();
        assert_eq!(p1.to_bytes(), p2.to_bytes());
        assert_eq!(p1.to_bytes(), p3.to_bytes());
    }
}

#[test]
fn setup_with_a_fixed_seed_is_reproducible() {
    let msgs = scenario_messages();
    let mut rng_a = StdRng::seed_from_u64(42);
    let mut rng_b = StdRng::seed_from_u64(42);
    let params_a = generate_parameters::<Bn254>(&mut rng_a, 8).unwrap();
    let params_b = generate_parameters::<Bn254>(&mut rng_b, 8).unwrap();
    let (ca, _) = commit(&params_a, &msgs).unwrap();
    let (cb, _) = commit(&params_b, &msgs).unwrap();
    assert_eq!(ca.to_bytes(), cb.to_bytes());
}

#[test]
fn domain_tag_changes_the_commitment() {
    let msgs = scenario_messages();
    let mut rng_a = StdRng::seed_from_u64(43);
    let mut rng_b = StdRng::seed_from_u64(43);
    let plain = generate_parameters::<Bn254>(&mut rng_a, 8).unwrap();
    let tagged =
        generate_parameters_with_domain::<Bn254>(&mut rng_b, 8, b"vector-commitment".to_vec())
            .unwrap();
    let (c_plain, aux_plain) = commit(&plain, &msgs).unwrap();
    let (c_tagged, aux_tagged) = commit(&tagged, &msgs).unwrap();
    assert_ne!(c_plain.to_bytes(), c_tagged.to_bytes());
    let p_tagged = open(&tagged, 5, &aux_tagged).unwrap();
    assert!(verify(&tagged, &c_tagged, &msgs[5], 5, &p_tagged).unwrap());
    let p_plain = open(&plain, 5, &aux_plain).unwrap();
    assert!(verify(&plain, &c_plain, &msgs[5], 5, &p_plain).unwrap());
}

#[test]
fn scenario_eight_messages() {
    let msgs = scenario_messages();
    let mut rng = StdRng::seed_from_u64(2013);
    let params = generate_parameters::<Bn254>(&mut rng, 8).unwrap();
    let (c, aux) = commit(&params, &msgs).unwrap();
    let p3 = open(&params, 3, &aux).unwrap();
    assert!(verify(&params, &c, &msgs[3], 3, &p3).unwrap());
    assert!(!verify(&params, &c, &msgs[4], 3, &p3).unwrap());
}

#[test]
fn bls12_381_single_index_domain() {
    let mut rng = StdRng::seed_from_u64(47);
    let params = generate_parameters::<Bls12_381>(&mut rng, 1).unwrap();
    let msgs = vec![b"only".to_vec()];
    let (c, aux) = commit(&params, &msgs).unwrap();
    let p = open(&params, 0, &aux).unwrap();
    let mut identity = vec![0u8; 48];
    identity[0] = 0xc0;
    assert_eq!(p.to_bytes(), identity);
    assert_eq!(c.to_bytes().len(), 48);
    assert!(verify(&params, &c, b"only", 0, &p).unwrap());
    assert!(!verify(&params, &c, b"other", 0, &p).unwrap());
}

#[test]
fn bls12_381_scenario_eight_messages() {
    let msgs = scenario_messages();
    let mut rng = StdRng::seed_from_u64(2014);
    let params = generate_parameters::<Bls12_381>(&mut rng, 8).unwrap();
    let (c, aux) = commit(&params, &msgs).unwrap();
    let p3 = open(&params, 3, &aux).unwrap();
    assert!(verify(&params, &c, &msgs[3], 3, &p3).unwrap());
    assert!(!verify(&params, &c, &msgs[4], 3, &p3).unwrap());
    let p4 = open(&params, 4, &aux).unwrap();
    assert!(!verify(&params, &c, &msgs[3], 3, &p4).unwrap());
    assert!(verify(&params, &c, &msgs[4], 4, &p4).unwrap());
}

fn encode<T: ark_serialize::CanonicalSerialize>(x: &T) -> Vec<u8> {
    let mut out = Vec::new();
    x.serialize_compressed(&mut out).unwrap();
    out
}

#[test]
fn first_nonzero_skips_zero_draws() {
    let zero = vec![0u8; 32];
    let mut one = vec![0u8; 32];
    one[0] = 1;
    assert_eq!(first_nonzero(&vec![zero.clone(), zero.clone(), one.clone()]), Some(2));
    assert_eq!(first_nonzero(&vec![one.clone(), zero.clone()]), Some(0));
    assert_eq!(first_nonzero(&vec![zero.clone(), zero.clone()]), None);
    assert_eq!(first_nonzero(&Vec::new()), None);
}

#[test]
fn first_other_than_skips_excluded_draws() {
    let id = vec![9u8, 9];
    let other = vec![9u8, 8];
    assert_eq!(first_other_than(&vec![id.clone(), other.clone()], &id), Some(1));
    assert_eq!(first_other_than(&vec![id.clone(), id.clone()], &id), None);
    assert_eq!(first_other_than(&vec![vec![9u8]], &id), Some(0));
}

#[test]
fn derive_parameters_matches_the_curve_arithmetic() {
    let g1 = G1Projective::generator();
    let g2 = G2Projective::generator() * Fr::from(5u64);
    let zs = [Fr::from(2u64), Fr::from(3u64), Fr::from(7u64)];
    let z: Vec<Vec<u8>> = zs.iter().map(encode).collect();
    let p: Parameters<Bn254> = derive_parameters(&encode(&g1), encode(&g2), &z, b"tag".to_vec());
    assert_eq!(p.size(), 3);
    assert_eq!(p.g_g2(), &encode(&g2));
    assert_eq!(p.domain_tag(), &b"tag".to_vec());
    for i in 0..3 {
        assert_eq!(p.h_g1()[i], encode(&(g1 * zs[i])));
        assert_eq!(p.h_g2()[i], encode(&(g2 * zs[i])));
        assert_eq!(p.hh_g1()[i].len(), 3);
        assert_eq!(p.hh_g2()[i].len(), 3);
        for j in 0..3 {
            assert_eq!(p.hh_g1()[i][j], encode(&(g1 * zs[i] * zs[j])));
            assert_eq!(p.hh_g2()[i][j], encode(&(g2 * zs[i] * zs[j])));
        }
    }
    // The commitment is the weighted sum of H1 under the message hashes.
    let msgs = vec![b"a".to_vec(), b"b".to_vec(), b"c".to_vec()];
    let (c, _) = commit(&p, &msgs).unwrap();
    assert_eq!(c.to_bytes().len(), 32);
    assert_ne!(c.to_bytes(), p.h_g1()[0]);
}

#[test]
fn setup_shapes_for_eight_indices() {
    let mut rng = StdRng::seed_from_u64(0);
    let params = generate_parameters::<Bn254>(&mut rng, 8).unwrap();
    assert_eq!(params.size(), 8);
    assert_eq!(params.h_g1().len(), 8);
    assert_eq!(params.h_g2().len(), 8);
    assert_eq!(params.hh_g1().len(), 8);
    assert_eq!(params.hh_g2().len(), 8);
    for i in 0..8 {
        assert_eq!(params.hh_g1()[i].len(), 8);
        assert_eq!(params.hh_g2()[i].len(), 8);
    }
    let mut g2_identity = vec![0u8; 64];
    g2_identity[63] = 0x40;
    assert_ne!(params.g_g2(), &g2_identity);
    assert!(params.domain_tag().is_empty());
}
