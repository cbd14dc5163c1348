//! The Chrome profile drawn from the thread-local generator.
use vstd::prelude::*;

use crate::codec::{put_bytes, put_u16, u16_be};
use crate::enums::{CertificateCompressionAlgorithm, ExtensionType, NamedGroup, SignatureScheme};
use crate::fingerprint::chrome::{alps_body, chrome_cipher_suite_vec, chrome_cipher_suites, chrome_named_groups, chrome_versions_body};
use crate::fingerprint::grease::{grease_table, grease_values, is_grease, lemma_grease_table, ProfileGreases};
use crate::handshake::{
    h2_http11, h2_http11_protocols, protocol_views, unknown_views, ClientHelloPayload, KeyShareEntry,
    PayloadU8, UnknownExtension,
};
use crate::patches::grease::{choose_multiple, get_grease_value, random_byte, shuffle, thread_rng};

verus! {

/// The random parts of a simulated ECH extension: config id, 32 bytes of `enc`, 240
/// bytes of payload.
pub struct SimulatedEch {
    pub config_id: u8,
    pub enc: Vec<u8>,
    pub inner: Vec<u8>,
}

/// The body of a simulated outer ECH extension: outer type, HKDF-SHA256 and AES-128-GCM,
/// the config id, `enc` behind the length 32 and the payload behind the length 240.
pub open spec fn simulated_ech_body(config_id: u8, enc: Seq<u8>, inner: Seq<u8>) -> Seq<u8> {
    seq![0x00u8] + seq![0x00u8, 0x01u8, 0x00u8, 0x01u8] + seq![config_id] + u16_be(32) + enc
        + u16_be(240) + inner
}

/// The extensions between the two GREASE extensions, before they are shuffled.
pub open spec fn patch_chrome_middle(key_share: bool, no_alpn: bool) -> Seq<ExtensionType> {
    seq![ExtensionType::StatusRequest, ExtensionType::ExtendedMasterSecret] + (if no_alpn {
        Seq::empty()
    } else {
        seq![ExtensionType::ALProtocolNegotiation]
    }) + seq![
        ExtensionType::ECPointFormats,
        ExtensionType::PSKKeyExchangeModes,
        ExtensionType::CompressCertificate,
        ExtensionType::RenegotiationInfo,
        ExtensionType::SignatureAlgorithms,
        ExtensionType::ServerName,
        ExtensionType::SessionTicket,
    ] + (if key_share { seq![ExtensionType::KeyShare] } else { Seq::empty() }) + seq![
        ExtensionType::EllipticCurves,
        ExtensionType::SupportedVersions,
        ExtensionType::SCT,
        ExtensionType::Unknown(0x44cd),
        ExtensionType::EncryptedClientHello,
    ]
}

/// The custom extensions of the profile, in order; the simulated ECH one only where the
/// ClientHello has no ECH extension of its own.
pub open spec fn patch_chrome_custom(
    g: ProfileGreases,
    simulate_ech: bool,
    ech: (u8, Seq<u8>, Seq<u8>),
) -> Seq<(ExtensionType, Seq<u8>)> {
    seq![
        (ExtensionType::SupportedVersions, chrome_versions_body(g.version)),
        (ExtensionType::SCT, Seq::<u8>::empty()),
        (ExtensionType::Unknown(0x44cd), alps_body()),
    ] + (if simulate_ech {
        seq![(ExtensionType::EncryptedClientHello, simulated_ech_body(ech.0, ech.1, ech.2))]
    } else {
        Seq::empty()
    }) + seq![
        (ExtensionType::spec_from_u16(g.ext1), Seq::<u8>::empty()),
        (ExtensionType::spec_from_u16(g.ext2), seq![0x00u8]),
    ]
}

/// The signature algorithms of the profile.
pub open spec fn patch_chrome_signature_schemes() -> Seq<SignatureScheme> {
    seq![
        SignatureScheme::ECDSA_NISTP256_SHA256,
        SignatureScheme::RSA_PSS_SHA256,
        SignatureScheme::RSA_PKCS1_SHA256,
        SignatureScheme::ECDSA_NISTP384_SHA384,
        SignatureScheme::RSA_PSS_SHA384,
        SignatureScheme::RSA_PKCS1_SHA384,
        SignatureScheme::RSA_PSS_SHA512,
        SignatureScheme::RSA_PKCS1_SHA512,
    ]
}

/// `p` is the first position of `v` holding a share for `g`.
pub open spec fn is_first_of(v: Seq<KeyShareEntry>, g: NamedGroup, p: int) -> bool {
    &&& 0 <= p < v.len()
    &&& v[p].group == g
    &&& forall|k: int| 0 <= k < p ==> v[k].group != g
}

/// The first position of `v` holding a share for `g`, or -1 where there is none.
pub open spec fn first_position(v: Seq<KeyShareEntry>, g: NamedGroup) -> int {
    if exists|p: int| is_first_of(v, g, p) {
        choose|p: int| is_first_of(v, g, p)
    } else {
        -1
    }
}

/// The first share for `g` (none or one), and the others in order.
pub open spec fn take_first(v: Seq<KeyShareEntry>, g: NamedGroup) -> (Seq<KeyShareEntry>, Seq<KeyShareEntry>) {
    let p = first_position(v, g);
    if p < 0 {
        (Seq::empty(), v)
    } else {
        (seq![v[p]], v.remove(p))
    }
}

/// The profile's key share order after its GREASE share: the first X25519MLKEM768
/// share, then the first X25519 share, then the rest in their order.
pub open spec fn patch_chrome_key_shares(v: Seq<KeyShareEntry>) -> Seq<KeyShareEntry> {
    let (a, v1) = take_first(v, NamedGroup::X25519MLKEM768);
    let (b, v2) = take_first(v1, NamedGroup::X25519);
    a + b + v2
}

/// What the profile makes of ClientHello `o` (as `q`), given its GREASE values, the
/// random parts of a simulated ECH extension and the shuffled middle extensions.
pub open spec fn chrome_patch_applied(
    o: ClientHelloPayload,
    q: ClientHelloPayload,
    no_alpn: bool,
    g: ProfileGreases,
    ech: (u8, Seq<u8>, Seq<u8>),
    order: Seq<ExtensionType>,
) -> bool {
    let oe = *o.extensions;
    let qe = *q.extensions;
    &&& q.client_version == o.client_version
    &&& q.random == o.random
    &&& q.session_id == o.session_id
    &&& q.compression_methods == o.compression_methods
    &&& q.cipher_suites@ == chrome_cipher_suites(g.cipher)
    &&& qe.contiguous_extensions@ == seq![ExtensionType::spec_from_u16(g.ext1)] + order + seq![
        ExtensionType::spec_from_u16(g.ext2),
    ]
    &&& unknown_views(qe.custom_extensions@) == patch_chrome_custom(
        g,
        oe.encrypted_client_hello is None,
        ech,
    )
    &&& if !no_alpn && oe.protocols is None {
        qe.protocols matches Some(v) && protocol_views(v@) == h2_http11()
    } else {
        qe.protocols == oe.protocols
    }
    &&& qe.certificate_compression_algorithms matches Some(v) && v@ == seq![
        CertificateCompressionAlgorithm::Brotli,
    ]
    &&& qe.renegotiation_info matches Some(r) && r.0@.len() == 0
    &&& qe.signature_schemes matches Some(v) && v@ == patch_chrome_signature_schemes()
    &&& match oe.key_shares {
        None => qe.key_shares is None,
        Some(ov) => {
            &&& qe.key_shares matches Some(qv)
            &&& qv@.len() == ov@.len() + 1
            &&& qv@[0].group == NamedGroup::Unknown(g.group)
            &&& qv@[0].payload@ == seq![0u8]
            &&& qv@.skip(1) == patch_chrome_key_shares(ov@)
        },
    }
    &&& qe.named_groups matches Some(v) && v@ == chrome_named_groups(g.group)
    &&& qe.supported_versions is None
    &&& qe.server_name == oe.server_name
    &&& qe.certificate_status_request == oe.certificate_status_request
    &&& qe.ec_point_formats == oe.ec_point_formats
    &&& qe.extended_master_secret_request == oe.extended_master_secret_request
    &&& qe.session_ticket == oe.session_ticket
    &&& qe.preshared_key_modes == oe.preshared_key_modes
    &&& qe.encrypted_client_hello == oe.encrypted_client_hello
    &&& qe.order_seed == oe.order_seed
    &&& qe.unknown_extensions == oe.unknown_extensions
}

/// GREASE values as the profile draws them: all from the table, the two extension
/// values distinct.
pub open spec fn valid_patch_greases(g: ProfileGreases) -> bool {
    &&& is_grease(g.cipher)
    &&& is_grease(g.group)
    &&& is_grease(g.version)
    &&& is_grease(g.ext1)
    &&& is_grease(g.ext2)
    &&& g.ext1 != g.ext2
}

/// Finds and removes the first share for `g`.
fn take_first_group(shares: &mut Vec<KeyShareEntry>, g: NamedGroup) -> (r: Option<KeyShareEntry>)
    ensures
        final(shares)@ == take_first(old(shares)@, g).1,
        r matches Some(e) ==> take_first(old(shares)@, g).0 == seq![e],
        r is None ==> take_first(old(shares)@, g).0.len() == 0,
{
    let ghost v = shares@;
    let mut i: usize = 0;
    while i < shares.len()
        invariant
            shares@ == v,
            v == old(shares)@,
            i <= v.len(),
            forall|k: int| 0 <= k < i ==> v[k].group != g,
        decreases v.len() - i,
    {
        if shares[i].group == g {
            proof {
                assert(is_first_of(v, g, i as int));
                let p = first_position(v, g);
                assert(is_first_of(v, g, p));
                if p < i {
                } else if p > i {
                    assert(v[i as int].group != g);
                }
                assert(p == i);
            }
            let e = shares.remove(i);
            assert(take_first(v, g).0 =~= seq![e]);
            assert(take_first(v, g).1 =~= shares@);
            return Some(e);
        }
        i = i + 1;
    }
    proof {
        assert(!exists|p: int| is_first_of(v, g, p));
    }
    None
}

/// Puts a one-byte share for the GREASE group first, then the first X25519MLKEM768
/// share, the first X25519 share and the rest.
fn reorder_key_shares(shares: Vec<KeyShareEntry>, grease_group: u16) -> (r: Vec<KeyShareEntry>)
    ensures
        r@.len() == shares@.len() + 1,
        r@[0].group == NamedGroup::Unknown(grease_group),
        r@[0].payload@ == seq![0u8],
        r@.skip(1) == patch_chrome_key_shares(shares@),
{
    let ghost v = shares@;
    let mut shares = shares;
    let mut one: Vec<u8> = Vec::new();
    one.push(0x00u8);
    let mut new_shares: Vec<KeyShareEntry> = Vec::new();
    new_shares.push(KeyShareEntry::new(NamedGroup::Unknown(grease_group), one));
    let ghost head = new_shares@;
    let a = take_first_group(&mut shares, NamedGroup::X25519MLKEM768);
    let ghost v1 = shares@;
    if let Some(e) = a {
        new_shares.push(e);
    }
    let b = take_first_group(&mut shares, NamedGroup::X25519);
    if let Some(e) = b {
        new_shares.push(e);
    }
    new_shares.append(&mut shares);
    proof {
        let (sa, r1) = take_first(v, NamedGroup::X25519MLKEM768);
        let (sb, r2) = take_first(r1, NamedGroup::X25519);
        assert(new_shares@ =~= head + sa + sb + r2);
        assert(new_shares@.skip(1) =~= sa + sb + r2);
        if first_position(v, NamedGroup::X25519MLKEM768) >= 0 {
            assert(r1.len() == v.len() - 1);
        }
        if first_position(r1, NamedGroup::X25519) >= 0 {
            assert(r2.len() == r1.len() - 1);
        }
    }
    new_shares
}

/// Adds a custom extension (and nothing to the wanted order).
pub fn add_custom_data(payload: &mut ClientHelloPayload, typ: u16, data: Vec<u8>)
    ensures
        unknown_views(final(payload).extensions.custom_extensions@) == unknown_views(
            old(payload).extensions.custom_extensions@,
        ).push((ExtensionType::spec_from_u16(typ), data@)),
        final(payload).extensions.custom_extensions@.len() == old(payload).extensions.custom_extensions@.len() + 1,
        *final(payload) == (ClientHelloPayload {
            extensions: final(payload).extensions,
            ..*old(payload)
        }),
        *final(payload).extensions == (crate::handshake::ClientExtensions {
            custom_extensions: final(payload).extensions.custom_extensions,
            ..*old(payload).extensions
        }),
{
    let etype = ExtensionType::from_u16(typ);
    payload.extensions.custom_extensions.push(UnknownExtension { typ: etype, payload: data });
    assert(unknown_views(payload.extensions.custom_extensions@) =~= unknown_views(
        old(payload).extensions.custom_extensions@,
    ).push((ExtensionType::spec_from_u16(typ), data@)));
}


fn patch_chrome_middle_vec(key_share: bool, no_alpn: bool) -> (v: Vec<ExtensionType>)
    ensures
        v@ == patch_chrome_middle(key_share, no_alpn),
{
    let mut v: Vec<ExtensionType> = Vec::new();
    v.push(ExtensionType::StatusRequest);
    v.push(ExtensionType::ExtendedMasterSecret);
    if !no_alpn {
        v.push(ExtensionType::ALProtocolNegotiation);
    }
    v.push(ExtensionType::ECPointFormats);
    v.push(ExtensionType::PSKKeyExchangeModes);
    v.push(ExtensionType::CompressCertificate);
    v.push(ExtensionType::RenegotiationInfo);
    v.push(ExtensionType::SignatureAlgorithms);
    v.push(ExtensionType::ServerName);
    v.push(ExtensionType::SessionTicket);
    if key_share {
        v.push(ExtensionType::KeyShare);
    }
    v.push(ExtensionType::EllipticCurves);
    v.push(ExtensionType::SupportedVersions);
    v.push(ExtensionType::SCT);
    v.push(ExtensionType::from_u16(17613));
    v.push(ExtensionType::EncryptedClientHello);
    assert(v@ =~= patch_chrome_middle(key_share, no_alpn));
    v
}

fn simulated_ech(ech: &SimulatedEch) -> (b: Vec<u8>)
    ensures
        b@ == simulated_ech_body(ech.config_id, ech.enc@, ech.inner@),
{
    let mut b: Vec<u8> = Vec::new();
    b.push(0x00u8);
    b.push(0x00u8);
    b.push(0x01u8);
    b.push(0x00u8);
    b.push(0x01u8);
    b.push(ech.config_id);
    put_u16(32, &mut b);
    put_bytes(ech.enc.as_slice(), &mut b);
    put_u16(240, &mut b);
    put_bytes(ech.inner.as_slice(), &mut b);
    assert(b@ =~= simulated_ech_body(ech.config_id, ech.enc@, ech.inner@));
    b
}

fn patch_chrome_signature_scheme_vec() -> (v: Vec<SignatureScheme>)
    ensures
        v@ == patch_chrome_signature_schemes(),
{
    let v = vec![
        SignatureScheme::ECDSA_NISTP256_SHA256,
        SignatureScheme::RSA_PSS_SHA256,
        SignatureScheme::RSA_PKCS1_SHA256,
        SignatureScheme::ECDSA_NISTP384_SHA384,
        SignatureScheme::RSA_PSS_SHA384,
        SignatureScheme::RSA_PKCS1_SHA384,
        SignatureScheme::RSA_PSS_SHA512,
        SignatureScheme::RSA_PKCS1_SHA512,
    ];
    assert(v@ =~= patch_chrome_signature_schemes());
    v
}

/// Applies the profile with the given GREASE values, simulated ECH parts and shuffled
/// middle extensions.
pub fn apply_chrome_fingerprint_with(
    payload: &mut ClientHelloPayload,
    no_alpn: bool,
    g: ProfileGreases,
    ech: &SimulatedEch,
    order: Vec<ExtensionType>,
)
    ensures
        chrome_patch_applied(
            *old(payload),
            *final(payload),
            no_alpn,
            g,
            (ech.config_id, ech.enc@, ech.inner@),
            order@,
        ),
{
    let ghost o = *payload;
    // 1. Cipher suites.
    payload.cipher_suites = chrome_cipher_suite_vec(g.cipher);

    // Clear and prepare the extensions.
    payload.extensions.contiguous_extensions.clear();
    payload.extensions.custom_extensions.clear();
    if !no_alpn {
        if payload.extensions.protocols.is_none() {
            payload.extensions.protocols = Some(h2_http11_protocols());
        }
    }
    let algs = vec![CertificateCompressionAlgorithm::Brotli];
    assert(algs@ =~= seq![CertificateCompressionAlgorithm::Brotli]);
    payload.extensions.certificate_compression_algorithms = Some(algs);
    payload.extensions.renegotiation_info = Some(PayloadU8::new(Vec::new()));
    payload.extensions.signature_schemes = Some(patch_chrome_signature_scheme_vec());
    match payload.extensions.key_shares.take() {
        Some(shares) => {
            payload.extensions.key_shares = Some(reorder_key_shares(shares, g.group));
        },
        None => {},
    }
    payload.extensions.named_groups = Some(vec![
        NamedGroup::Unknown(g.group),
        NamedGroup::X25519MLKEM768,
        NamedGroup::X25519,
        NamedGroup::secp256r1,
        NamedGroup::secp384r1,
    ]);
    // supported_versions goes as a custom extension, with GREASE.
    payload.extensions.supported_versions = None;
    let ghost before_custom = *payload;
    let mut ver_payload: Vec<u8> = vec![0x06u8];
    put_u16(g.version, &mut ver_payload);
    put_u16(0x0304, &mut ver_payload);
    put_u16(0x0303, &mut ver_payload);
    assert(ver_payload@ =~= chrome_versions_body(g.version));
    add_custom_data(payload, 0x002b, ver_payload);
    add_custom_data(payload, 0x0012, Vec::new());
    let alps: Vec<u8> = vec![0x00u8, 0x03u8, 0x02u8, 0x68u8, 0x32u8];
    assert(alps@ =~= alps_body());
    add_custom_data(payload, 17613, alps);
    if payload.extensions.encrypted_client_hello.is_none() {
        add_custom_data(payload, 0xfe0d, simulated_ech(ech));
    }
    // GREASE first, the shuffled extensions, GREASE last.
    add_custom_data(payload, g.ext1, Vec::new());
    payload.extensions.contiguous_extensions.push(ExtensionType::from_u16(g.ext1));
    let mut order = order;
    let ghost order_view = order@;
    payload.extensions.contiguous_extensions.append(&mut order);
    let mut last: Vec<u8> = Vec::new();
    last.push(0x00u8);
    add_custom_data(payload, g.ext2, last);
    payload.extensions.contiguous_extensions.push(ExtensionType::from_u16(g.ext2));
    assert(payload.extensions.contiguous_extensions@ =~= seq![ExtensionType::spec_from_u16(g.ext1)]
        + order_view + seq![ExtensionType::spec_from_u16(g.ext2)]);
    assert(unknown_views(payload.extensions.custom_extensions@) =~= patch_chrome_custom(
        g,
        o.extensions.encrypted_client_hello is None,
        (ech.config_id, ech.enc@, ech.inner@),
    ));
}

/// A pair drawn without repetition from a table without repeated values holds two
/// different values, both from the table.
pub(crate) proof fn lemma_pair_from_table(pool: Seq<u16>, table: Seq<u16>)
    requires
        pool.len() == 2,
        pool.to_multiset().subset_of(table.to_multiset()),
        table.no_duplicates(),
    ensures
        pool[0] != pool[1],
        table.contains(pool[0]),
        table.contains(pool[1]),
{
    broadcast use vstd::multiset::group_multiset_axioms;
    broadcast use vstd::seq_lib::to_multiset_build;
    broadcast use vstd::seq_lib::to_multiset_contains;

    assert(pool =~= Seq::<u16>::empty().push(pool[0]).push(pool[1]));
    assert(Seq::<u16>::empty().to_multiset() =~= vstd::multiset::Multiset::<u16>::empty());
    table.lemma_multiset_has_no_duplicates();
    assert(pool.to_multiset().count(pool[0]) >= 1);
    assert(pool.to_multiset().count(pool[1]) >= 1);
    if pool[0] == pool[1] {
        assert(pool.to_multiset().count(pool[0]) == 2);
        assert(table.to_multiset().count(pool[0]) >= 2);
    }
}

/// Rewrites `payload` to look like a ClientHello of Chrome, with GREASE values, simulated
/// ECH parts and the extension order drawn from the thread-local generator.
/// `no_alpn` leaves ALPN out.
pub fn apply_chrome_fingerprint(payload: &mut ClientHelloPayload, no_alpn: bool)
    ensures
        exists|g: ProfileGreases, ech: (u8, Seq<u8>, Seq<u8>), order: Seq<ExtensionType>|
            {
                &&& valid_patch_greases(g)
                &&& (old(payload).extensions.encrypted_client_hello is None ==> ech.1.len() == 32
                    && ech.2.len() == 240)
                &&& order.to_multiset() == patch_chrome_middle(
                    old(payload).extensions.key_shares is Some,
                    no_alpn,
                ).to_multiset()
                &&& #[trigger] chrome_patch_applied(*old(payload), *final(payload), no_alpn, g, ech, order)
            },
{
    let mut rng = thread_rng();

    // Two different GREASE values for the two GREASE extensions.
    let table = grease_values();
    let grease_pool = choose_multiple(table.as_slice(), &mut rng, 2);
    proof {
        lemma_grease_table();
        lemma_pair_from_table(grease_pool@, table@);
    }
    let grease_ext1 = grease_pool[0];
    let grease_ext2 = grease_pool[1];
    let grease_shared_group = get_grease_value(&mut rng);
    let grease_cipher = get_grease_value(&mut rng);
    let grease_version = get_grease_value(&mut rng);
    let g = ProfileGreases {
        cipher: grease_cipher,
        group: grease_shared_group,
        version: grease_version,
        ext1: grease_ext1,
        ext2: grease_ext2,
    };

    let mut middle = patch_chrome_middle_vec(payload.extensions.key_shares.is_some(), no_alpn);
    let ghost middle_view = middle@;

    // Simulated ECH, where the ClientHello has none.
    let mut ech = SimulatedEch { config_id: 0, enc: Vec::new(), inner: Vec::new() };
    if payload.extensions.encrypted_client_hello.is_none() {
        ech.config_id = random_byte(&mut rng);
        let mut i: usize = 0;
        while i < 32
            invariant
                i <= 32,
                ech.enc@.len() == i,
                ech.inner@.len() == 0,
            decreases 32 - i,
        {
            ech.enc.push(random_byte(&mut rng));
            i = i + 1;
        }
        let mut k: usize = 0;
        while k < 240
            invariant
                k <= 240,
                ech.inner@.len() == k,
                ech.enc@.len() == 32,
            decreases 240 - k,
        {
            ech.inner.push(random_byte(&mut rng));
            k = k + 1;
        }
    }

    shuffle(&mut middle, &mut rng);
    let ghost order_view = middle@;
    apply_chrome_fingerprint_with(payload, no_alpn, g, &ech, middle);
    proof {
        let e = (ech.config_id, ech.enc@, ech.inner@);
        assert(chrome_patch_applied(*old(payload), *payload, no_alpn, g, e, order_view));
        assert(valid_patch_greases(g));
        assert(order_view.to_multiset() == middle_view.to_multiset());
        assert(old(payload).extensions.encrypted_client_hello is None ==> e.1.len() == 32
            && e.2.len() == 240);
    }
}


/// Taking out the first share of a group keeps every share: the taken one and the rest
/// together are the shares given.
proof fn lemma_take_first_keeps(v: Seq<KeyShareEntry>, g: NamedGroup)
    ensures
        (take_first(v, g).0 + take_first(v, g).1).to_multiset() == v.to_multiset(),
        take_first(v, g).0.len() + take_first(v, g).1.len() == v.len(),
{
    broadcast use vstd::seq_lib::lemma_multiset_commutative;
    broadcast use vstd::seq_lib::to_multiset_remove;
    broadcast use vstd::seq_lib::to_multiset_len;
    broadcast use vstd::multiset::group_multiset_axioms;
    broadcast use vstd::multiset::group_multiset_properties;

    let p = first_position(v, g);
    if p < 0 {
        assert(take_first(v, g).0 + take_first(v, g).1 =~= v);
    } else {
        assert(is_first_of(v, g, p));
        let a = seq![v[p]];
        assert(a + v.remove(p) =~= v.remove(p).insert(0, v[p]));
        vstd::seq_lib::to_multiset_insert(v.remove(p), 0, v[p]);
        assert(v.to_multiset().count(v[p]) > 0) by {
            broadcast use vstd::seq_lib::to_multiset_contains;

            assert(v.contains(v[p]));
        }
        assert((a + v.remove(p)).to_multiset() =~= v.to_multiset());
    }
}

/// The profile only reorders the key shares it is given: after its GREASE share come
/// the same shares, each as often as before.
pub proof fn lemma_patch_key_shares_permute(v: Seq<KeyShareEntry>)
    ensures
        patch_chrome_key_shares(v).to_multiset() == v.to_multiset(),
        patch_chrome_key_shares(v).len() == v.len(),
{
    broadcast use vstd::seq_lib::lemma_multiset_commutative;
    broadcast use vstd::multiset::group_multiset_axioms;

    let (a, v1) = take_first(v, NamedGroup::X25519MLKEM768);
    let (b, v2) = take_first(v1, NamedGroup::X25519);
    lemma_take_first_keeps(v, NamedGroup::X25519MLKEM768);
    lemma_take_first_keeps(v1, NamedGroup::X25519);
    assert((a + b + v2).to_multiset() =~= a.to_multiset().add(b.to_multiset().add(v2.to_multiset())));
}

} // verus!
