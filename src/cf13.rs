//! The Catalano-Fiore pairing-based vector commitment.
//!
//! Setup publishes, for secret nonzero scalars `z_1..z_q`, the elements
//! `H1[i] = g1 * z_i`, `H2[i] = g2 * z_i` and the cross products
//! `HH1[i][j] = H1[i] * z_j`, `HH2[i][j] = H2[i] * z_j`. A vector is committed as
//! `sum_i H1[i] * hash(m_i)`; the proof for index `i` is
//! `sum_{j != i} HH1[i][j] * hash(m_j)`, and it is checked with one pairing
//! equation. Setup costs `O(q^2)` scalar multiplications and the parameters
//! hold `O(q^2)` group elements.
use crate::backend::PairingBackend;
use crate::{Error, VectorCommitment};
use ark_std::rand::rngs::StdRng;
use std::marker::PhantomData;
use zeroize::Zeroize;
use vstd::prelude::*;

verus! {

/// How many times setup draws one trapdoor scalar before it reports the
/// randomness source as failed.
pub const TRAPDOOR_DRAWS: usize = 16;

/// The byte strings held by a vector of byte vectors.
pub open spec fn views(v: Seq<Vec<u8>>) -> Seq<Seq<u8>> {
    v.map_values(|b: Vec<u8>| b@)
}

/// The encoding of the scalar zero: every byte is zero.
pub open spec fn is_zero_encoding(s: Seq<u8>) -> bool {
    forall|k: int| 0 <= k < s.len() ==> s[k] == 0
}

/// `sum_{j < n} points[j] * scalars[j]`, added up from the identity in index order.
pub open spec fn weighted_sum<B: PairingBackend>(
    points: Seq<Seq<u8>>,
    scalars: Seq<Seq<u8>>,
    n: nat,
) -> Seq<u8>
    decreases n,
{
    if n == 0 {
        B::g1_zero()
    } else {
        B::g1_add(
            weighted_sum::<B>(points, scalars, (n - 1) as nat),
            B::g1_mul(points[n - 1], scalars[n - 1]),
        )
    }
}

/// `sum_{j < n, j != skip} points[j] * scalars[j]`, added up from the identity
/// in index order.
pub open spec fn weighted_sum_except<B: PairingBackend>(
    points: Seq<Seq<u8>>,
    scalars: Seq<Seq<u8>>,
    skip: int,
    n: nat,
) -> Seq<u8>
    decreases n,
{
    if n == 0 {
        B::g1_zero()
    } else {
        let acc = weighted_sum_except::<B>(points, scalars, skip, (n - 1) as nat);
        if n - 1 == skip {
            acc
        } else {
            B::g1_add(acc, B::g1_mul(points[n - 1], scalars[n - 1]))
        }
    }
}

/// The scalar hash of each message under a domain tag.
pub open spec fn hashes_of<B: PairingBackend>(domain: Seq<u8>, msgs: Seq<Seq<u8>>) -> Seq<Seq<u8>> {
    Seq::new(msgs.len(), |k: int| B::hash(domain, msgs[k]))
}

/// The public parameters for vectors of `q` messages.
pub struct Parameters<B: PairingBackend> {
    g_g2: Vec<u8>,
    h_g1: Vec<Vec<u8>>,
    h_g2: Vec<Vec<u8>>,
    hh_g1: Vec<Vec<Vec<u8>>>,
    hh_g2: Vec<Vec<Vec<u8>>>,
    domain: Vec<u8>,
    backend: PhantomData<B>,
}

impl<B: PairingBackend> Parameters<B> {
    /// The size of the index domain.
    pub closed spec fn q(self) -> nat {
        self.h_g1@.len()
    }

    /// The generator of the second group.
    pub closed spec fn g2(self) -> Seq<u8> {
        self.g_g2@
    }

    pub closed spec fn h1(self) -> Seq<Seq<u8>> {
        views(self.h_g1@)
    }

    pub closed spec fn h2(self) -> Seq<Seq<u8>> {
        views(self.h_g2@)
    }

    pub closed spec fn hh1(self) -> Seq<Seq<Seq<u8>>> {
        self.hh_g1@.map_values(|row: Vec<Vec<u8>>| views(row@))
    }

    pub closed spec fn hh2(self) -> Seq<Seq<Seq<u8>>> {
        self.hh_g2@.map_values(|row: Vec<Vec<u8>>| views(row@))
    }

    /// The domain-separation tag of the hash to scalars.
    pub closed spec fn domain(self) -> Seq<u8> {
        self.domain@
    }

    /// The size of the index domain.
    pub fn size(&self) -> (r: usize)
        ensures
            r == self.q(),
    {
        self.h_g1.len()
    }

    /// The encoding of the generator of the second group.
    pub fn g_g2(&self) -> (r: &Vec<u8>)
        ensures
            r@ == self.g2(),
    {
        &self.g_g2
    }

    /// The encodings of `H1[0..q]`.
    pub fn h_g1(&self) -> (r: &Vec<Vec<u8>>)
        ensures
            views(r@) == self.h1(),
    {
        &self.h_g1
    }

    /// The encodings of `H2[0..q]`.
    pub fn h_g2(&self) -> (r: &Vec<Vec<u8>>)
        ensures
            views(r@) == self.h2(),
    {
        &self.h_g2
    }

    /// The encodings of the `q x q` matrix `HH1`.
    pub fn hh_g1(&self) -> (r: &Vec<Vec<Vec<u8>>>)
        ensures
            r@.map_values(|row: Vec<Vec<u8>>| views(row@)) == self.hh1(),
    {
        &self.hh_g1
    }

    /// The encodings of the `q x q` matrix `HH2`.
    pub fn hh_g2(&self) -> (r: &Vec<Vec<Vec<u8>>>)
        ensures
            r@.map_values(|row: Vec<Vec<u8>>| views(row@)) == self.hh2(),
    {
        &self.hh_g2
    }

    /// The domain-separation tag of the hash to scalars.
    pub fn domain_tag(&self) -> (r: &Vec<u8>)
        ensures
            r@ == self.domain(),
    {
        &self.domain
    }

    /// The index domain is not empty, every sequence has `q` entries, every
    /// matrix is `q x q`, and every entry is a valid group element.
    #[verifier::type_invariant]
    pub closed spec fn well_formed(self) -> bool {
        let q = self.h_g1@.len();
        &&& q >= 1
        &&& self.h_g2@.len() == q
        &&& self.hh_g1@.len() == q
        &&& self.hh_g2@.len() == q
        &&& B::g2_ok(self.g_g2@)
        &&& forall|i: int|
            0 <= i < q ==> {
                &&& B::g1_ok(#[trigger] self.h_g1@[i]@)
                &&& B::g2_ok(self.h_g2@[i]@)
                &&& self.hh_g1@[i]@.len() == q
                &&& self.hh_g2@[i]@.len() == q
            }
        &&& forall|i: int, j: int|
            0 <= i < q && 0 <= j < q ==> {
                &&& B::g1_ok(#[trigger] self.hh_g1@[i]@[j]@)
                &&& B::g2_ok(self.hh_g2@[i]@[j]@)
            }
    }

    /// The parameters are those that the first-group generator `g1` and the
    /// nonzero trapdoor scalars `z` give; neither generator is the identity.
    pub open spec fn derived_from(self, g1: Seq<u8>, z: Seq<Seq<u8>>) -> bool {
        &&& B::g1_ok(g1)
        &&& g1 != B::g1_zero()
        &&& self.g2() != B::g2_zero()
        &&& z.len() == self.q()
        &&& forall|i: int|
            0 <= i < self.q() ==> {
                &&& B::scalar_ok(#[trigger] z[i])
                &&& !is_zero_encoding(z[i])
                &&& self.h1()[i] == B::g1_mul(g1, z[i])
                &&& self.h2()[i] == B::g2_mul(self.g2(), z[i])
            }
        &&& forall|i: int, j: int|
            0 <= i < self.q() && 0 <= j < self.q() ==> {
                &&& #[trigger] self.hh1()[i][j] == B::g1_mul(self.h1()[i], z[j])
                &&& self.hh2()[i][j] == B::g2_mul(self.h2()[i], z[j])
            }
    }
}

/// An element of the first group: a commitment or a proof.
pub struct G1Element<B: PairingBackend> {
    bytes: Vec<u8>,
    backend: PhantomData<B>,
}

pub type Commitment<B> = G1Element<B>;

pub type Proof<B> = G1Element<B>;

impl<B: PairingBackend> View for G1Element<B> {
    type V = Seq<u8>;

    closed spec fn view(&self) -> Seq<u8> {
        self.bytes@
    }
}

impl<B: PairingBackend> G1Element<B> {
    #[verifier::type_invariant]
    closed spec fn valid(self) -> bool {
        B::g1_ok(self.bytes@)
    }

    /// The canonical compressed encoding of the element.
    pub fn to_bytes(&self) -> (r: Vec<u8>)
        ensures
            r@ == self@,
    {
        copy_bytes(&self.bytes)
    }
}

/// What a commitment leaves to its committer: the scalar hash of each message.
pub struct AuxData<B: PairingBackend> {
    msg_hashes: Vec<Vec<u8>>,
    backend: PhantomData<B>,
}

impl<B: PairingBackend> AuxData<B> {
    pub closed spec fn hashes(self) -> Seq<Seq<u8>> {
        views(self.msg_hashes@)
    }

    #[verifier::type_invariant]
    closed spec fn valid(self) -> bool {
        forall|k: int| 0 <= k < self.msg_hashes@.len() ==> B::scalar_ok(#[trigger] self.msg_hashes@[k]@)
    }
}

fn copy_bytes(b: &Vec<u8>) -> (r: Vec<u8>)
    ensures
        r@ == b@,
{
    let mut r: Vec<u8> = Vec::new();
    let mut k: usize = 0;
    while k < b.len()
        invariant
            k <= b.len(),
            r@ == b@.take(k as int),
        decreases b.len() - k,
    {
        r.push(b[k]);
        k += 1;
        proof {
            assert(r@ =~= b@.take(k as int));
        }
    }
    proof {
        assert(b@.take(b.len() as int) =~= b@);
    }
    r
}

fn bytes_equal(a: &Vec<u8>, b: &Vec<u8>) -> (r: bool)
    ensures
        r == (a@ == b@),
{
    if a.len() != b.len() {
        return false;
    }
    let mut k: usize = 0;
    while k < a.len()
        invariant
            k <= a.len(),
            a.len() == b.len(),
            forall|m: int| 0 <= m < k ==> a@[m] == b@[m],
        decreases a.len() - k,
    {
        if a[k] != b[k] {
            return false;
        }
        k += 1;
    }
    proof {
        assert(a@ =~= b@);
    }
    true
}

/// What committing to `msgs` gives: the commitment `sum_i H1[i] * hash(m_i)`
/// and the hashes as auxiliary data when there is one message per index, and
/// `LengthMismatch` otherwise.
pub open spec fn commit_outcome<B: PairingBackend>(
    parameters: Parameters<B>,
    msgs: Seq<Seq<u8>>,
    r: Result<(Commitment<B>, AuxData<B>), Error>,
) -> bool {
    match r {
        Ok((c, aux)) => {
            &&& msgs.len() == parameters.q()
            &&& aux.hashes() == hashes_of::<B>(parameters.domain(), msgs)
            &&& c@ == weighted_sum::<B>(parameters.h1(), aux.hashes(), parameters.q())
        },
        Err(e) => msgs.len() != parameters.q() && e == Error::LengthMismatch,
    }
}

/// What opening at index `i` gives: `IndexOutOfRange` for `i >= q`,
/// `LengthMismatch` for auxiliary data of another length, and otherwise the
/// proof `sum_{j != i} HH1[i][j] * hashes[j]`.
pub open spec fn open_outcome<B: PairingBackend>(
    parameters: Parameters<B>,
    hashes: Seq<Seq<u8>>,
    i: int,
    r: Result<Proof<B>, Error>,
) -> bool {
    if i < 0 || i >= parameters.q() {
        r == Err::<Proof<B>, Error>(Error::IndexOutOfRange)
    } else if hashes.len() != parameters.q() {
        r == Err::<Proof<B>, Error>(Error::LengthMismatch)
    } else {
        match r {
            Ok(p) => p@ == weighted_sum_except::<B>(parameters.hh1()[i], hashes, i, parameters.q()),
            Err(_) => false,
        }
    }
}

/// Committing twice to the same messages under the same parameters gives
/// the same commitment and the same auxiliary data, or the same error.
pub proof fn commit_is_deterministic<B: PairingBackend>(
    parameters: Parameters<B>,
    msgs: Seq<Seq<u8>>,
    r1: Result<(Commitment<B>, AuxData<B>), Error>,
    r2: Result<(Commitment<B>, AuxData<B>), Error>,
)
    requires
        commit_outcome::<B>(parameters, msgs, r1),
        commit_outcome::<B>(parameters, msgs, r2),
    ensures
        r1 is Ok <==> r2 is Ok,
        match (r1, r2) {
            (Ok((c1, aux1)), Ok((c2, aux2))) => c1@ == c2@ && aux1.hashes() == aux2.hashes(),
            (Err(e1), Err(e2)) => e1 == e2,
            _ => true,
        },
{
}

/// Opening twice with the same auxiliary data at the same index gives the
/// same proof, or the same error.
pub proof fn open_is_deterministic<B: PairingBackend>(
    parameters: Parameters<B>,
    aux: AuxData<B>,
    i: int,
    r1: Result<Proof<B>, Error>,
    r2: Result<Proof<B>, Error>,
)
    requires
        open_outcome::<B>(parameters, aux.hashes(), i, r1),
        open_outcome::<B>(parameters, aux.hashes(), i, r2),
    ensures
        r1 is Ok <==> r2 is Ok,
        match (r1, r2) {
            (Ok(p1), Ok(p2)) => p1@ == p2@,
            (Err(e1), Err(e2)) => e1 == e2,
            _ => true,
        },
{
}

/// Commits to `vector`, which must hold exactly `q` messages.
pub fn commit<B: PairingBackend>(parameters: &Parameters<B>, vector: &[Vec<u8>]) -> (r: Result<
    (Commitment<B>, AuxData<B>),
    Error,
>)
    ensures
        commit_outcome::<B>(*parameters, views(vector@), r),
{
    proof {
        use_type_invariant(parameters);
    }
    let q = parameters.h_g1.len();
    if vector.len() != q {
        return Err(Error::LengthMismatch);
    }
    let ghost hs = hashes_of::<B>(parameters.domain@, views(vector@));
    let mut msg_hashes: Vec<Vec<u8>> = Vec::new();
    let mut acc = B::identity_g1();
    let mut k: usize = 0;
    while k < q
        invariant
            q == parameters.h_g1@.len(),
            q == vector@.len(),
            parameters.well_formed(),
            k <= q,
            msg_hashes@.len() == k,
            hs == hashes_of::<B>(parameters.domain@, views(vector@)),
            forall|m: int| 0 <= m < k ==> #[trigger] msg_hashes@[m]@ == hs[m],
            forall|m: int| 0 <= m < k ==> B::scalar_ok(#[trigger] msg_hashes@[m]@),
            B::g1_ok(acc@),
            acc@ == weighted_sum::<B>(parameters.h1(), views(msg_hashes@), k as nat),
        decreases q - k,
    {
        let h = B::hash_to_scalar(&parameters.domain, vector[k].as_slice());
        let term = B::mul_g1(&parameters.h_g1[k], &h);
        acc = B::add_g1(&acc, &term);
        let ghost before = views(msg_hashes@);
        msg_hashes.push(h);
        k += 1;
        proof {
            assert(views(msg_hashes@).take(k - 1) =~= before);
            lemma_weighted_sum_prefix::<B>(parameters.h1(), views(msg_hashes@), before, (k - 1) as nat);
        }
    }
    proof {
        assert(views(msg_hashes@) =~= hs);
    }
    let c = G1Element { bytes: acc, backend: PhantomData };
    let aux = AuxData { msg_hashes, backend: PhantomData };
    Ok((c, aux))
}

/// The weighted sum over the first `n` terms reads only the first `n` scalars.
proof fn lemma_weighted_sum_prefix<B: PairingBackend>(
    points: Seq<Seq<u8>>,
    scalars: Seq<Seq<u8>>,
    prefix: Seq<Seq<u8>>,
    n: nat,
)
    requires
        n <= prefix.len(),
        n <= scalars.len(),
        forall|m: int| 0 <= m < n ==> scalars[m] == prefix[m],
    ensures
        weighted_sum::<B>(points, scalars, n) == weighted_sum::<B>(points, prefix, n),
    decreases n,
{
    if n > 0 {
        lemma_weighted_sum_prefix::<B>(points, scalars, prefix, (n - 1) as nat);
    }
}

/// The pairing equation of verification: the commitment with the claimed
/// message's own term removed, paired with `H2[i]`, equals the proof paired
/// with the generator of the second group.
pub open spec fn accepts<B: PairingBackend>(
    parameters: Parameters<B>,
    c: Seq<u8>,
    msg: Seq<u8>,
    i: int,
    proof: Seq<u8>,
) -> bool {
    let a = B::g1_sub(c, B::g1_mul(parameters.h1()[i], B::hash(parameters.domain(), msg)));
    B::pairing(a, parameters.h2()[i]) == B::pairing(proof, parameters.g2())
}

/// Opens the commitment whose auxiliary data is `aux` at index `i`.
pub fn open<B: PairingBackend>(parameters: &Parameters<B>, i: usize, aux: &AuxData<B>) -> (r: Result<
    Proof<B>,
    Error,
>)
    ensures
        open_outcome::<B>(*parameters, aux.hashes(), i as int, r),
{
    proof {
        use_type_invariant(parameters);
        use_type_invariant(aux);
    }
    let q = parameters.hh_g1.len();
    if i >= q {
        return Err(Error::IndexOutOfRange);
    }
    if aux.msg_hashes.len() != q {
        return Err(Error::LengthMismatch);
    }
    let row = &parameters.hh_g1[i];
    let ghost rows = parameters.hh1()[i as int];
    proof {
        assert(B::g1_ok(parameters.h_g1@[i as int]@));
        assert(rows =~= views(row@));
    }
    let mut acc = B::identity_g1();
    let mut j: usize = 0;
    while j < q
        invariant
            q == parameters.h_g1@.len(),
            q == aux.msg_hashes@.len(),
            i < q,
            parameters.well_formed(),
            aux.valid(),
            row == parameters.hh_g1@[i as int],
            row@.len() == q,
            rows == views(row@),
            j <= q,
            B::g1_ok(acc@),
            acc@ == weighted_sum_except::<B>(rows, aux.hashes(), i as int, j as nat),
        decreases q - j,
    {
        if j != i {
            proof {
                assert(B::g1_ok(parameters.hh_g1@[i as int]@[j as int]@));
                assert(B::scalar_ok(aux.msg_hashes@[j as int]@));
            }
            let term = B::mul_g1(&row[j], &aux.msg_hashes[j]);
            acc = B::add_g1(&acc, &term);
        }
        j += 1;
    }
    Ok(G1Element { bytes: acc, backend: PhantomData })
}

/// Checks that `p` opens the commitment `c` to `msg` at index `i`.
pub fn verify<B: PairingBackend>(
    parameters: &Parameters<B>,
    c: &Commitment<B>,
    msg: &[u8],
    i: usize,
    p: &Proof<B>,
) -> (r: Result<bool, Error>)
    ensures
        i >= parameters.q() ==> r == Err::<bool, Error>(Error::IndexOutOfRange),
        i < parameters.q() ==> r == Ok::<bool, Error>(
            accepts::<B>(*parameters, c@, msg@, i as int, p@),
        ),
{
    proof {
        use_type_invariant(parameters);
        use_type_invariant(c);
        use_type_invariant(p);
    }
    if i >= parameters.h_g1.len() {
        return Err(Error::IndexOutOfRange);
    }
    let msg_hash = B::hash_to_scalar(&parameters.domain, msg);
    let own = B::mul_g1(&parameters.h_g1[i], &msg_hash);
    let a = B::sub_g1(&c.bytes, &own);
    let t1 = B::pair(&a, &parameters.h_g2[i]);
    let t2 = B::pair(&p.bytes, &parameters.g_g2);
    Ok(bytes_equal(&t1, &t2))
}

fn is_zero_bytes(b: &Vec<u8>) -> (r: bool)
    ensures
        r == is_zero_encoding(b@),
{
    let mut k: usize = 0;
    while k < b.len()
        invariant
            k <= b.len(),
            forall|m: int| 0 <= m < k ==> b@[m] == 0,
        decreases b.len() - k,
    {
        if b[k] != 0 {
            return false;
        }
        k += 1;
    }
    true
}

/// Relies on `zeroize::Zeroize` for `Vec<u8>`: volatile stores of zero over
/// the elements and the spare capacity, then `clear`.
#[verifier::external_body]
fn wipe(b: &mut Vec<u8>)
    ensures
        final(b)@.len() == 0,
{
    b.zeroize();
}

/// Wipes every entry, in place, and empties the vector.
fn wipe_all(v: &mut Vec<Vec<u8>>)
    ensures
        final(v)@.len() == 0,
{
    while v.len() > 0
        decreases v.len(),
    {
        match v.pop() {
            Some(mut row) => wipe(&mut row),
            None => {},
        }
    }
}

/// The index of the first draw that is not the zero scalar, if there is one.
pub fn first_nonzero(draws: &Vec<Vec<u8>>) -> (r: Option<usize>)
    ensures
        r is None <==> forall|m: int|
            0 <= m < draws@.len() ==> is_zero_encoding(#[trigger] draws@[m]@),
        r matches Some(k) ==> {
            &&& k < draws@.len()
            &&& !is_zero_encoding(draws@[k as int]@)
            &&& forall|m: int| 0 <= m < k ==> is_zero_encoding(#[trigger] draws@[m]@)
        },
{
    let mut k: usize = 0;
    while k < draws.len()
        invariant
            k <= draws@.len(),
            forall|m: int| 0 <= m < k ==> is_zero_encoding(#[trigger] draws@[m]@),
        decreases draws.len() - k,
    {
        if !is_zero_bytes(&draws[k]) {
            return Some(k);
        }
        k += 1;
    }
    None
}

/// The index of the first draw whose bytes differ from `excluded`, if there
/// is one.
pub fn first_other_than(draws: &Vec<Vec<u8>>, excluded: &Vec<u8>) -> (r: Option<usize>)
    ensures
        r is None <==> forall|m: int| 0 <= m < draws@.len() ==> #[trigger] draws@[m]@ == excluded@,
        r matches Some(k) ==> {
            &&& k < draws@.len()
            &&& draws@[k as int]@ != excluded@
            &&& forall|m: int| 0 <= m < k ==> #[trigger] draws@[m]@ == excluded@
        },
{
    let mut k: usize = 0;
    while k < draws.len()
        invariant
            k <= draws@.len(),
            forall|m: int| 0 <= m < k ==> #[trigger] draws@[m]@ == excluded@,
        decreases draws.len() - k,
    {
        if !bytes_equal(&draws[k], excluded) {
            return Some(k);
        }
        k += 1;
    }
    None
}

/// Draws `TRAPDOOR_DRAWS` candidate generators of the first group.
fn draw_g1_candidates<B: PairingBackend>(rng: &mut StdRng) -> (r: Vec<Vec<u8>>)
    ensures
        r@.len() == TRAPDOOR_DRAWS,
        forall|m: int| 0 <= m < r@.len() ==> B::g1_ok(#[trigger] r@[m]@),
{
    let mut r: Vec<Vec<u8>> = Vec::with_capacity(TRAPDOOR_DRAWS);
    while r.len() < TRAPDOOR_DRAWS
        invariant
            r@.len() <= TRAPDOOR_DRAWS,
            forall|m: int| 0 <= m < r@.len() ==> B::g1_ok(#[trigger] r@[m]@),
        decreases TRAPDOOR_DRAWS - r@.len(),
    {
        r.push(B::random_g1(rng));
    }
    r
}

/// Draws `TRAPDOOR_DRAWS` candidate generators of the second group.
fn draw_g2_candidates<B: PairingBackend>(rng: &mut StdRng) -> (r: Vec<Vec<u8>>)
    ensures
        r@.len() == TRAPDOOR_DRAWS,
        forall|m: int| 0 <= m < r@.len() ==> B::g2_ok(#[trigger] r@[m]@),
{
    let mut r: Vec<Vec<u8>> = Vec::with_capacity(TRAPDOOR_DRAWS);
    while r.len() < TRAPDOOR_DRAWS
        invariant
            r@.len() <= TRAPDOOR_DRAWS,
            forall|m: int| 0 <= m < r@.len() ==> B::g2_ok(#[trigger] r@[m]@),
        decreases TRAPDOOR_DRAWS - r@.len(),
    {
        r.push(B::random_g2(rng));
    }
    r
}

/// Draws `TRAPDOOR_DRAWS` candidate trapdoor scalars.
fn draw_scalar_candidates<B: PairingBackend>(rng: &mut StdRng) -> (r: Vec<Vec<u8>>)
    ensures
        r@.len() == TRAPDOOR_DRAWS,
        forall|m: int| 0 <= m < r@.len() ==> B::scalar_ok(#[trigger] r@[m]@),
{
    let mut r: Vec<Vec<u8>> = Vec::with_capacity(TRAPDOOR_DRAWS);
    while r.len() < TRAPDOOR_DRAWS
        invariant
            r@.len() <= TRAPDOOR_DRAWS,
            forall|m: int| 0 <= m < r@.len() ==> B::scalar_ok(#[trigger] r@[m]@),
        decreases TRAPDOOR_DRAWS - r@.len(),
    {
        r.push(B::random_scalar(rng));
    }
    r
}

/// Multiplies the first-group element `p` by each scalar of `z`.
fn scale_g1<B: PairingBackend>(p: &Vec<u8>, z: &Vec<Vec<u8>>) -> (r: Vec<Vec<u8>>)
    requires
        B::g1_ok(p@),
        forall|k: int| 0 <= k < z@.len() ==> B::scalar_ok(#[trigger] z@[k]@),
    ensures
        r@.len() == z@.len(),
        forall|k: int|
            0 <= k < z@.len() ==> {
                &&& (#[trigger] r@[k])@ == B::g1_mul(p@, z@[k]@)
                &&& B::g1_ok(r@[k]@)
            },
{
    let mut r: Vec<Vec<u8>> = Vec::new();
    let mut k: usize = 0;
    while k < z.len()
        invariant
            k <= z@.len(),
            r@.len() == k,
            B::g1_ok(p@),
            forall|m: int| 0 <= m < z@.len() ==> B::scalar_ok(#[trigger] z@[m]@),
            forall|m: int|
                0 <= m < k ==> {
                    &&& (#[trigger] r@[m])@ == B::g1_mul(p@, z@[m]@)
                    &&& B::g1_ok(r@[m]@)
                },
        decreases z.len() - k,
    {
        r.push(B::mul_g1(p, &z[k]));
        k += 1;
    }
    r
}

/// Multiplies the second-group element `p` by each scalar of `z`.
fn scale_g2<B: PairingBackend>(p: &Vec<u8>, z: &Vec<Vec<u8>>) -> (r: Vec<Vec<u8>>)
    requires
        B::g2_ok(p@),
        forall|k: int| 0 <= k < z@.len() ==> B::scalar_ok(#[trigger] z@[k]@),
    ensures
        r@.len() == z@.len(),
        forall|k: int|
            0 <= k < z@.len() ==> {
                &&& (#[trigger] r@[k])@ == B::g2_mul(p@, z@[k]@)
                &&& B::g2_ok(r@[k]@)
            },
{
    let mut r: Vec<Vec<u8>> = Vec::new();
    let mut k: usize = 0;
    while k < z.len()
        invariant
            k <= z@.len(),
            r@.len() == k,
            B::g2_ok(p@),
            forall|m: int| 0 <= m < z@.len() ==> B::scalar_ok(#[trigger] z@[m]@),
            forall|m: int|
                0 <= m < k ==> {
                    &&& (#[trigger] r@[m])@ == B::g2_mul(p@, z@[m]@)
                    &&& B::g2_ok(r@[m]@)
                },
        decreases z.len() - k,
    {
        r.push(B::mul_g2(p, &z[k]));
        k += 1;
    }
    r
}

/// Derives the parameters that the generators `g_g1`, `g_g2` and the nonzero
/// trapdoor scalars `z` give, with `q = |z|`. This costs `2 q (q + 1)` scalar
/// multiplications.
pub fn derive_parameters<B: PairingBackend>(
    g_g1: &Vec<u8>,
    g_g2: Vec<u8>,
    z: &Vec<Vec<u8>>,
    domain: Vec<u8>,
) -> (r: Parameters<B>)
    requires
        z@.len() >= 1,
        B::g1_ok(g_g1@),
        B::g2_ok(g_g2@),
        g_g1@ != B::g1_zero(),
        g_g2@ != B::g2_zero(),
        forall|m: int|
            0 <= m < z@.len() ==> B::scalar_ok(#[trigger] z@[m]@) && !is_zero_encoding(z@[m]@),
    ensures
        r.q() == z@.len(),
        r.g2() == g_g2@,
        r.domain() == domain@,
        r.derived_from(g_g1@, views(z@)),
{
    let q = z.len();
    let h_g1 = scale_g1::<B>(g_g1, z);
    let h_g2 = scale_g2::<B>(&g_g2, z);
    let mut hh_g1: Vec<Vec<Vec<u8>>> = Vec::new();
    let mut hh_g2: Vec<Vec<Vec<u8>>> = Vec::new();
    let mut i: usize = 0;
    while i < q
        invariant
            i <= q,
            z@.len() == q,
            h_g1@.len() == q,
            h_g2@.len() == q,
            hh_g1@.len() == i,
            hh_g2@.len() == i,
            forall|m: int| 0 <= m < q ==> B::scalar_ok(#[trigger] z@[m]@),
            forall|m: int|
                0 <= m < q ==> B::g1_ok(#[trigger] h_g1@[m]@) && B::g2_ok(h_g2@[m]@),
            forall|a: int|
                0 <= a < i ==> (#[trigger] hh_g1@[a])@.len() == q && hh_g2@[a]@.len() == q,
            forall|a: int, b: int|
                0 <= a < i && 0 <= b < q ==> {
                    &&& (#[trigger] hh_g1@[a]@[b])@ == B::g1_mul(h_g1@[a]@, z@[b]@)
                    &&& B::g1_ok(hh_g1@[a]@[b]@)
                    &&& hh_g2@[a]@[b]@ == B::g2_mul(h_g2@[a]@, z@[b]@)
                    &&& B::g2_ok(hh_g2@[a]@[b]@)
                },
        decreases q - i,
    {
        hh_g1.push(scale_g1::<B>(&h_g1[i], z));
        hh_g2.push(scale_g2::<B>(&h_g2[i], z));
        i += 1;
    }
    let ghost zs = views(z@);
    proof {
        assert forall|m: int| 0 <= m < q implies B::scalar_ok(#[trigger] zs[m]) && !is_zero_encoding(
            zs[m],
        ) by {
            assert(B::scalar_ok(z@[m]@));
        }
    }
    let p = Parameters { g_g2, h_g1, h_g2, hh_g1, hh_g2, domain, backend: PhantomData };
    proof {
        assert(p.derived_from(g_g1@, zs));
    }
    p
}

/// Generates parameters for vectors of `q` messages, hashing messages under
/// the domain-separation tag `domain`.
///
/// Setup draws `TRAPDOOR_DRAWS` candidates for each generator and for each
/// of the `q` trapdoor scalars. It takes the first candidate generator that is
/// not the identity (`first_other_than`) and the first candidate scalar that
/// is not zero (`first_nonzero`), and fails with `RandomnessFailure` exactly
/// when one of these finds none. The trapdoor scalars are wiped before this
/// returns, on every path that drew any.
pub fn generate_parameters_with_domain<B: PairingBackend>(
    rng: &mut StdRng,
    q: usize,
    domain: Vec<u8>,
) -> (r: Result<Parameters<B>, Error>)
    ensures
        q == 0 ==> r == Err::<Parameters<B>, Error>(Error::EmptyIndexDomain),
        match r {
            Ok(p) => {
                &&& p.q() == q
                &&& p.domain() == domain@
                &&& exists|g1: Seq<u8>, z: Seq<Seq<u8>>| p.derived_from(g1, z)
            },
            Err(e) => q == 0 || e == Error::RandomnessFailure,
        },
{
    if q == 0 {
        return Err(Error::EmptyIndexDomain);
    }
    let g1_draws = draw_g1_candidates::<B>(rng);
    let g2_draws = draw_g2_candidates::<B>(rng);
    let id1 = B::identity_g1();
    let id2 = B::identity_g2();
    let a = match first_other_than(&g1_draws, &id1) {
        Some(a) => a,
        None => {
            return Err(Error::RandomnessFailure);
        },
    };
    let b = match first_other_than(&g2_draws, &id2) {
        Some(b) => b,
        None => {
            return Err(Error::RandomnessFailure);
        },
    };
    let mut z: Vec<Vec<u8>> = Vec::with_capacity(q);
    let mut k: usize = 0;
    while k < q
        invariant
            k <= q,
            z@.len() == k,
            forall|m: int|
                0 <= m < k ==> B::scalar_ok(#[trigger] z@[m]@) && !is_zero_encoding(z@[m]@),
        decreases q - k,
    {
        let mut draws = draw_scalar_candidates::<B>(rng);
        match first_nonzero(&draws) {
            Some(j) => {
                let s = draws.remove(j);
                z.push(s);
                wipe_all(&mut draws);
            },
            None => {
                wipe_all(&mut draws);
                wipe_all(&mut z);
                return Err(Error::RandomnessFailure);
            },
        }
        k += 1;
    }
    let g_g2 = copy_bytes(&g2_draws[b]);
    let p = derive_parameters::<B>(&g1_draws[a], g_g2, &z, domain);
    wipe_all(&mut z);
    Ok(p)
}

/// Generates parameters for vectors of `q` messages, hashing messages under
/// the empty domain tag.
pub fn generate_parameters<B: PairingBackend>(rng: &mut StdRng, q: usize) -> (r: Result<
    Parameters<B>,
    Error,
>)
    ensures
        q == 0 ==> r == Err::<Parameters<B>, Error>(Error::EmptyIndexDomain),
        match r {
            Ok(p) => {
                &&& p.q() == q
                &&& p.domain() == Seq::<u8>::empty()
                &&& exists|g1: Seq<u8>, z: Seq<Seq<u8>>| p.derived_from(g1, z)
            },
            Err(e) => q == 0 || e == Error::RandomnessFailure,
        },
{
    generate_parameters_with_domain(rng, q, Vec::new())
}

/// The construction as a `VectorCommitment` over the pairing backend `B`.
pub struct Scheme<B: PairingBackend> {
    backend: PhantomData<B>,
}

impl<B: PairingBackend> VectorCommitment for Scheme<B> {
    type Parameters = Parameters<B>;

    type Message = Vec<u8>;

    type Commitment = Commitment<B>;

    type AuxData = AuxData<B>;

    type Proof = Proof<B>;

    open spec fn index_domain(parameters: Parameters<B>) -> nat {
        parameters.q()
    }

    fn generate_parameters(rng: &mut StdRng, q: usize) -> (r: Result<Parameters<B>, Error>)
        ensures
            q == 0 ==> r == Err::<Parameters<B>, Error>(Error::EmptyIndexDomain),
            match r {
                Ok(p) => {
                    &&& p.q() == q
                    &&& p.domain() == Seq::<u8>::empty()
                    &&& exists|g1: Seq<u8>, z: Seq<Seq<u8>>| p.derived_from(g1, z)
                },
                Err(e) => q == 0 || e == Error::RandomnessFailure,
            },
    {
        generate_parameters::<B>(rng, q)
    }

    fn commit(parameters: &Parameters<B>, vector: &[Vec<u8>]) -> (r: Result<
        (Commitment<B>, AuxData<B>),
        Error,
    >)
        ensures
            commit_outcome::<B>(*parameters, views(vector@), r),
    {
        commit::<B>(parameters, vector)
    }

    fn open(parameters: &Parameters<B>, aux: &AuxData<B>, index: usize) -> (r: Result<
        Proof<B>,
        Error,
    >)
        ensures
            open_outcome::<B>(*parameters, aux.hashes(), index as int, r),
    {
        open::<B>(parameters, index, aux)
    }

    fn verify(
        parameters: &Parameters<B>,
        commitment: &Commitment<B>,
        msg: &Vec<u8>,
        index: usize,
        proof: &Proof<B>,
    ) -> (r: Result<bool, Error>)
        ensures
            index < parameters.q() ==> r == Ok::<bool, Error>(
                accepts::<B>(*parameters, commitment@, msg@, index as int, proof@),
            ),
    {
        verify::<B>(parameters, commitment, msg.as_slice(), index, proof)
    }
}

} // verus!
