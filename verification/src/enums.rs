use vstd::prelude::*;

verus! {

/// TLS protocol versions that a ClientHello can name.
///
/// `Unknown` carries any code point without a name of its own.
#[allow(non_camel_case_types)]
#[derive(Clone, Copy, Debug, PartialEq, Eq, Structural)]
pub enum ProtocolVersion {
    SSLv2,
    SSLv3,
    TLSv1_0,
    TLSv1_1,
    TLSv1_2,
    TLSv1_3,
    Unknown(u16),
}

impl ProtocolVersion {
    /// The code point carried on the wire.
    pub open spec fn value(self) -> u16 {
        match self {
            ProtocolVersion::SSLv2 => 0x0200,
            ProtocolVersion::SSLv3 => 0x0300,
            ProtocolVersion::TLSv1_0 => 0x0301,
            ProtocolVersion::TLSv1_1 => 0x0302,
            ProtocolVersion::TLSv1_2 => 0x0303,
            ProtocolVersion::TLSv1_3 => 0x0304,
            ProtocolVersion::Unknown(x) => x,
        }
    }

    /// The value that decoding `x` gives: the named variant where `x` has one.
    pub open spec fn spec_from_u16(x: u16) -> Self {
        match x {
            0x0200 => ProtocolVersion::SSLv2,
            0x0300 => ProtocolVersion::SSLv3,
            0x0301 => ProtocolVersion::TLSv1_0,
            0x0302 => ProtocolVersion::TLSv1_1,
            0x0303 => ProtocolVersion::TLSv1_2,
            0x0304 => ProtocolVersion::TLSv1_3,
            _ => ProtocolVersion::Unknown(x),
        }
    }

    /// A value is canonical when it is what decoding its own code point gives.
    pub open spec fn is_canonical(self) -> bool {
        Self::spec_from_u16(self.value()) == self
    }

    /// Returns the code point of this value.
    pub fn get_u16(&self) -> (v: u16)
        ensures
            v == self.value(),
    {
        match self {
            ProtocolVersion::SSLv2 => 0x0200,
            ProtocolVersion::SSLv3 => 0x0300,
            ProtocolVersion::TLSv1_0 => 0x0301,
            ProtocolVersion::TLSv1_1 => 0x0302,
            ProtocolVersion::TLSv1_2 => 0x0303,
            ProtocolVersion::TLSv1_3 => 0x0304,
            ProtocolVersion::Unknown(x) => *x,
        }
    }

    /// Decodes a code point.
    pub fn from_u16(x: u16) -> (r: Self)
        ensures
            r == Self::spec_from_u16(x),
    {
        match x {
            0x0200 => ProtocolVersion::SSLv2,
            0x0300 => ProtocolVersion::SSLv3,
            0x0301 => ProtocolVersion::TLSv1_0,
            0x0302 => ProtocolVersion::TLSv1_1,
            0x0303 => ProtocolVersion::TLSv1_2,
            0x0304 => ProtocolVersion::TLSv1_3,
            _ => ProtocolVersion::Unknown(x),
        }
    }

    /// Decoding a code point and encoding the result gives the code point back.
    pub proof fn lemma_value_of_decoded(x: u16)
        ensures
            Self::spec_from_u16(x).value() == x,
            Self::spec_from_u16(x).is_canonical(),
    {
    }
}

/// TLS cipher suite code points used by the browser profiles.
///
/// `Unknown` carries any code point without a name of its own.
#[allow(non_camel_case_types)]
#[derive(Clone, Copy, Debug, PartialEq, Eq, Structural)]
pub enum CipherSuite {
    TLS_RSA_WITH_3DES_EDE_CBC_SHA,
    TLS_RSA_WITH_AES_128_CBC_SHA,
    TLS_RSA_WITH_AES_256_CBC_SHA,
    TLS_RSA_WITH_AES_128_GCM_SHA256,
    TLS_RSA_WITH_AES_256_GCM_SHA384,
    TLS13_AES_128_GCM_SHA256,
    TLS13_AES_256_GCM_SHA384,
    TLS13_CHACHA20_POLY1305_SHA256,
    TLS_ECDHE_ECDSA_WITH_3DES_EDE_CBC_SHA,
    TLS_ECDHE_ECDSA_WITH_AES_128_CBC_SHA,
    TLS_ECDHE_ECDSA_WITH_AES_256_CBC_SHA,
    TLS_ECDHE_RSA_WITH_3DES_EDE_CBC_SHA,
    TLS_ECDHE_RSA_WITH_AES_128_CBC_SHA,
    TLS_ECDHE_RSA_WITH_AES_256_CBC_SHA,
    TLS_ECDHE_ECDSA_WITH_AES_128_GCM_SHA256,
    TLS_ECDHE_ECDSA_WITH_AES_256_GCM_SHA384,
    TLS_ECDHE_RSA_WITH_AES_128_GCM_SHA256,
    TLS_ECDHE_RSA_WITH_AES_256_GCM_SHA384,
    TLS_ECDHE_RSA_WITH_CHACHA20_POLY1305_SHA256,
    TLS_ECDHE_ECDSA_WITH_CHACHA20_POLY1305_SHA256,
    Unknown(u16),
}

impl CipherSuite {
    /// The code point carried on the wire.
    pub open spec fn value(self) -> u16 {
        match self {
            CipherSuite::TLS_RSA_WITH_3DES_EDE_CBC_SHA => 0x000a,
            CipherSuite::TLS_RSA_WITH_AES_128_CBC_SHA => 0x002f,
            CipherSuite::TLS_RSA_WITH_AES_256_CBC_SHA => 0x0035,
            CipherSuite::TLS_RSA_WITH_AES_128_GCM_SHA256 => 0x009c,
            CipherSuite::TLS_RSA_WITH_AES_256_GCM_SHA384 => 0x009d,
            CipherSuite::TLS13_AES_128_GCM_SHA256 => 0x1301,
            CipherSuite::TLS13_AES_256_GCM_SHA384 => 0x1302,
            CipherSuite::TLS13_CHACHA20_POLY1305_SHA256 => 0x1303,
            CipherSuite::TLS_ECDHE_ECDSA_WITH_3DES_EDE_CBC_SHA => 0xc008,
            CipherSuite::TLS_ECDHE_ECDSA_WITH_AES_128_CBC_SHA => 0xc009,
            CipherSuite::TLS_ECDHE_ECDSA_WITH_AES_256_CBC_SHA => 0xc00a,
            CipherSuite::TLS_ECDHE_RSA_WITH_3DES_EDE_CBC_SHA => 0xc012,
            CipherSuite::TLS_ECDHE_RSA_WITH_AES_128_CBC_SHA => 0xc013,
            CipherSuite::TLS_ECDHE_RSA_WITH_AES_256_CBC_SHA => 0xc014,
            CipherSuite::TLS_ECDHE_ECDSA_WITH_AES_128_GCM_SHA256 => 0xc02b,
            CipherSuite::TLS_ECDHE_ECDSA_WITH_AES_256_GCM_SHA384 => 0xc02c,
            CipherSuite::TLS_ECDHE_RSA_WITH_AES_128_GCM_SHA256 => 0xc02f,
            CipherSuite::TLS_ECDHE_RSA_WITH_AES_256_GCM_SHA384 => 0xc030,
            CipherSuite::TLS_ECDHE_RSA_WITH_CHACHA20_POLY1305_SHA256 => 0xcca8,
            CipherSuite::TLS_ECDHE_ECDSA_WITH_CHACHA20_POLY1305_SHA256 => 0xcca9,
            CipherSuite::Unknown(x) => x,
        }
    }

    /// The value that decoding `x` gives: the named variant where `x` has one.
    pub open spec fn spec_from_u16(x: u16) -> Self {
        match x {
            0x000a => CipherSuite::TLS_RSA_WITH_3DES_EDE_CBC_SHA,
            0x002f => CipherSuite::TLS_RSA_WITH_AES_128_CBC_SHA,
            0x0035 => CipherSuite::TLS_RSA_WITH_AES_256_CBC_SHA,
            0x009c => CipherSuite::TLS_RSA_WITH_AES_128_GCM_SHA256,
            0x009d => CipherSuite::TLS_RSA_WITH_AES_256_GCM_SHA384,
            0x1301 => CipherSuite::TLS13_AES_128_GCM_SHA256,
            0x1302 => CipherSuite::TLS13_AES_256_GCM_SHA384,
            0x1303 => CipherSuite::TLS13_CHACHA20_POLY1305_SHA256,
            0xc008 => CipherSuite::TLS_ECDHE_ECDSA_WITH_3DES_EDE_CBC_SHA,
            0xc009 => CipherSuite::TLS_ECDHE_ECDSA_WITH_AES_128_CBC_SHA,
            0xc00a => CipherSuite::TLS_ECDHE_ECDSA_WITH_AES_256_CBC_SHA,
            0xc012 => CipherSuite::TLS_ECDHE_RSA_WITH_3DES_EDE_CBC_SHA,
            0xc013 => CipherSuite::TLS_ECDHE_RSA_WITH_AES_128_CBC_SHA,
            0xc014 => CipherSuite::TLS_ECDHE_RSA_WITH_AES_256_CBC_SHA,
            0xc02b => CipherSuite::TLS_ECDHE_ECDSA_WITH_AES_128_GCM_SHA256,
            0xc02c => CipherSuite::TLS_ECDHE_ECDSA_WITH_AES_256_GCM_SHA384,
            0xc02f => CipherSuite::TLS_ECDHE_RSA_WITH_AES_128_GCM_SHA256,
            0xc030 => CipherSuite::TLS_ECDHE_RSA_WITH_AES_256_GCM_SHA384,
            0xcca8 => CipherSuite::TLS_ECDHE_RSA_WITH_CHACHA20_POLY1305_SHA256,
            0xcca9 => CipherSuite::TLS_ECDHE_ECDSA_WITH_CHACHA20_POLY1305_SHA256,
            _ => CipherSuite::Unknown(x),
        }
    }

    /// A value is canonical when it is what decoding its own code point gives.
    pub open spec fn is_canonical(self) -> bool {
        Self::spec_from_u16(self.value()) == self
    }

    /// Returns the code point of this value.
    pub fn get_u16(&self) -> (v: u16)
        ensures
            v == self.value(),
    {
        match self {
            CipherSuite::TLS_RSA_WITH_3DES_EDE_CBC_SHA => 0x000a,
            CipherSuite::TLS_RSA_WITH_AES_128_CBC_SHA => 0x002f,
            CipherSuite::TLS_RSA_WITH_AES_256_CBC_SHA => 0x0035,
            CipherSuite::TLS_RSA_WITH_AES_128_GCM_SHA256 => 0x009c,
            CipherSuite::TLS_RSA_WITH_AES_256_GCM_SHA384 => 0x009d,
            CipherSuite::TLS13_AES_128_GCM_SHA256 => 0x1301,
            CipherSuite::TLS13_AES_256_GCM_SHA384 => 0x1302,
            CipherSuite::TLS13_CHACHA20_POLY1305_SHA256 => 0x1303,
            CipherSuite::TLS_ECDHE_ECDSA_WITH_3DES_EDE_CBC_SHA => 0xc008,
            CipherSuite::TLS_ECDHE_ECDSA_WITH_AES_128_CBC_SHA => 0xc009,
            CipherSuite::TLS_ECDHE_ECDSA_WITH_AES_256_CBC_SHA => 0xc00a,
            CipherSuite::TLS_ECDHE_RSA_WITH_3DES_EDE_CBC_SHA => 0xc012,
            CipherSuite::TLS_ECDHE_RSA_WITH_AES_128_CBC_SHA => 0xc013,
            CipherSuite::TLS_ECDHE_RSA_WITH_AES_256_CBC_SHA => 0xc014,
            CipherSuite::TLS_ECDHE_ECDSA_WITH_AES_128_GCM_SHA256 => 0xc02b,
            CipherSuite::TLS_ECDHE_ECDSA_WITH_AES_256_GCM_SHA384 => 0xc02c,
            CipherSuite::TLS_ECDHE_RSA_WITH_AES_128_GCM_SHA256 => 0xc02f,
            CipherSuite::TLS_ECDHE_RSA_WITH_AES_256_GCM_SHA384 => 0xc030,
            CipherSuite::TLS_ECDHE_RSA_WITH_CHACHA20_POLY1305_SHA256 => 0xcca8,
            CipherSuite::TLS_ECDHE_ECDSA_WITH_CHACHA20_POLY1305_SHA256 => 0xcca9,
            CipherSuite::Unknown(x) => *x,
        }
    }

    /// Decodes a code point.
    pub fn from_u16(x: u16) -> (r: Self)
        ensures
            r == Self::spec_from_u16(x),
    {
        match x {
            0x000a => CipherSuite::TLS_RSA_WITH_3DES_EDE_CBC_SHA,
            0x002f => CipherSuite::TLS_RSA_WITH_AES_128_CBC_SHA,
            0x0035 => CipherSuite::TLS_RSA_WITH_AES_256_CBC_SHA,
            0x009c => CipherSuite::TLS_RSA_WITH_AES_128_GCM_SHA256,
            0x009d => CipherSuite::TLS_RSA_WITH_AES_256_GCM_SHA384,
            0x1301 => CipherSuite::TLS13_AES_128_GCM_SHA256,
            0x1302 => CipherSuite::TLS13_AES_256_GCM_SHA384,
            0x1303 => CipherSuite::TLS13_CHACHA20_POLY1305_SHA256,
            0xc008 => CipherSuite::TLS_ECDHE_ECDSA_WITH_3DES_EDE_CBC_SHA,
            0xc009 => CipherSuite::TLS_ECDHE_ECDSA_WITH_AES_128_CBC_SHA,
            0xc00a => CipherSuite::TLS_ECDHE_ECDSA_WITH_AES_256_CBC_SHA,
            0xc012 => CipherSuite::TLS_ECDHE_RSA_WITH_3DES_EDE_CBC_SHA,
            0xc013 => CipherSuite::TLS_ECDHE_RSA_WITH_AES_128_CBC_SHA,
            0xc014 => CipherSuite::TLS_ECDHE_RSA_WITH_AES_256_CBC_SHA,
            0xc02b => CipherSuite::TLS_ECDHE_ECDSA_WITH_AES_128_GCM_SHA256,
            0xc02c => CipherSuite::TLS_ECDHE_ECDSA_WITH_AES_256_GCM_SHA384,
            0xc02f => CipherSuite::TLS_ECDHE_RSA_WITH_AES_128_GCM_SHA256,
            0xc030 => CipherSuite::TLS_ECDHE_RSA_WITH_AES_256_GCM_SHA384,
            0xcca8 => CipherSuite::TLS_ECDHE_RSA_WITH_CHACHA20_POLY1305_SHA256,
            0xcca9 => CipherSuite::TLS_ECDHE_ECDSA_WITH_CHACHA20_POLY1305_SHA256,
            _ => CipherSuite::Unknown(x),
        }
    }

    /// Decoding a code point and encoding the result gives the code point back.
    pub proof fn lemma_value_of_decoded(x: u16)
        ensures
            Self::spec_from_u16(x).value() == x,
            Self::spec_from_u16(x).is_canonical(),
    {
    }
}

/// Named groups for key exchange.
///
/// `Unknown` carries any code point without a name of its own.
#[allow(non_camel_case_types)]
#[derive(Clone, Copy, Debug, PartialEq, Eq, Structural)]
pub enum NamedGroup {
    secp256r1,
    secp384r1,
    secp521r1,
    X25519,
    X448,
    FFDHE2048,
    FFDHE3072,
    FFDHE4096,
    FFDHE6144,
    FFDHE8192,
    MLKEM512,
    MLKEM768,
    MLKEM1024,
    secp256r1MLKEM768,
    X25519MLKEM768,
    Unknown(u16),
}

impl NamedGroup {
    /// The code point carried on the wire.
    pub open spec fn value(self) -> u16 {
        match self {
            NamedGroup::secp256r1 => 0x0017,
            NamedGroup::secp384r1 => 0x0018,
            NamedGroup::secp521r1 => 0x0019,
            NamedGroup::X25519 => 0x001d,
            NamedGroup::X448 => 0x001e,
            NamedGroup::FFDHE2048 => 0x0100,
            NamedGroup::FFDHE3072 => 0x0101,
            NamedGroup::FFDHE4096 => 0x0102,
            NamedGroup::FFDHE6144 => 0x0103,
            NamedGroup::FFDHE8192 => 0x0104,
            NamedGroup::MLKEM512 => 0x0200,
            NamedGroup::MLKEM768 => 0x0201,
            NamedGroup::MLKEM1024 => 0x0202,
            NamedGroup::secp256r1MLKEM768 => 0x11eb,
            NamedGroup::X25519MLKEM768 => 0x11ec,
            NamedGroup::Unknown(x) => x,
        }
    }

    /// The value that decoding `x` gives: the named variant where `x` has one.
    pub open spec fn spec_from_u16(x: u16) -> Self {
        match x {
            0x0017 => NamedGroup::secp256r1,
            0x0018 => NamedGroup::secp384r1,
            0x0019 => NamedGroup::secp521r1,
            0x001d => NamedGroup::X25519,
            0x001e => NamedGroup::X448,
            0x0100 => NamedGroup::FFDHE2048,
            0x0101 => NamedGroup::FFDHE3072,
            0x0102 => NamedGroup::FFDHE4096,
            0x0103 => NamedGroup::FFDHE6144,
            0x0104 => NamedGroup::FFDHE8192,
            0x0200 => NamedGroup::MLKEM512,
            0x0201 => NamedGroup::MLKEM768,
            0x0202 => NamedGroup::MLKEM1024,
            0x11eb => NamedGroup::secp256r1MLKEM768,
            0x11ec => NamedGroup::X25519MLKEM768,
            _ => NamedGroup::Unknown(x),
        }
    }

    /// A value is canonical when it is what decoding its own code point gives.
    pub open spec fn is_canonical(self) -> bool {
        Self::spec_from_u16(self.value()) == self
    }

    /// Returns the code point of this value.
    pub fn get_u16(&self) -> (v: u16)
        ensures
            v == self.value(),
    {
        match self {
            NamedGroup::secp256r1 => 0x0017,
            NamedGroup::secp384r1 => 0x0018,
            NamedGroup::secp521r1 => 0x0019,
            NamedGroup::X25519 => 0x001d,
            NamedGroup::X448 => 0x001e,
            NamedGroup::FFDHE2048 => 0x0100,
            NamedGroup::FFDHE3072 => 0x0101,
            NamedGroup::FFDHE4096 => 0x0102,
            NamedGroup::FFDHE6144 => 0x0103,
            NamedGroup::FFDHE8192 => 0x0104,
            NamedGroup::MLKEM512 => 0x0200,
            NamedGroup::MLKEM768 => 0x0201,
            NamedGroup::MLKEM1024 => 0x0202,
            NamedGroup::secp256r1MLKEM768 => 0x11eb,
            NamedGroup::X25519MLKEM768 => 0x11ec,
            NamedGroup::Unknown(x) => *x,
        }
    }

    /// Decodes a code point.
    pub fn from_u16(x: u16) -> (r: Self)
        ensures
            r == Self::spec_from_u16(x),
    {
        match x {
            0x0017 => NamedGroup::secp256r1,
            0x0018 => NamedGroup::secp384r1,
            0x0019 => NamedGroup::secp521r1,
            0x001d => NamedGroup::X25519,
            0x001e => NamedGroup::X448,
            0x0100 => NamedGroup::FFDHE2048,
            0x0101 => NamedGroup::FFDHE3072,
            0x0102 => NamedGroup::FFDHE4096,
            0x0103 => NamedGroup::FFDHE6144,
            0x0104 => NamedGroup::FFDHE8192,
            0x0200 => NamedGroup::MLKEM512,
            0x0201 => NamedGroup::MLKEM768,
            0x0202 => NamedGroup::MLKEM1024,
            0x11eb => NamedGroup::secp256r1MLKEM768,
            0x11ec => NamedGroup::X25519MLKEM768,
            _ => NamedGroup::Unknown(x),
        }
    }

    /// Decoding a code point and encoding the result gives the code point back.
    pub proof fn lemma_value_of_decoded(x: u16)
        ensures
            Self::spec_from_u16(x).value() == x,
            Self::spec_from_u16(x).is_canonical(),
    {
    }
}

/// Signature schemes offered in `signature_algorithms`.
///
/// `Unknown` carries any code point without a name of its own.
#[allow(non_camel_case_types)]
#[derive(Clone, Copy, Debug, PartialEq, Eq, Structural)]
pub enum SignatureScheme {
    RSA_PKCS1_SHA1,
    ECDSA_SHA1_Legacy,
    RSA_PKCS1_SHA256,
    ECDSA_NISTP256_SHA256,
    RSA_PKCS1_SHA384,
    ECDSA_NISTP384_SHA384,
    RSA_PKCS1_SHA512,
    ECDSA_NISTP521_SHA512,
    RSA_PSS_SHA256,
    RSA_PSS_SHA384,
    RSA_PSS_SHA512,
    ED25519,
    ED448,
    Unknown(u16),
}

impl SignatureScheme {
    /// The code point carried on the wire.
    pub open spec fn value(self) -> u16 {
        match self {
            SignatureScheme::RSA_PKCS1_SHA1 => 0x0201,
            SignatureScheme::ECDSA_SHA1_Legacy => 0x0203,
            SignatureScheme::RSA_PKCS1_SHA256 => 0x0401,
            SignatureScheme::ECDSA_NISTP256_SHA256 => 0x0403,
            SignatureScheme::RSA_PKCS1_SHA384 => 0x0501,
            SignatureScheme::ECDSA_NISTP384_SHA384 => 0x0503,
            SignatureScheme::RSA_PKCS1_SHA512 => 0x0601,
            SignatureScheme::ECDSA_NISTP521_SHA512 => 0x0603,
            SignatureScheme::RSA_PSS_SHA256 => 0x0804,
            SignatureScheme::RSA_PSS_SHA384 => 0x0805,
            SignatureScheme::RSA_PSS_SHA512 => 0x0806,
            SignatureScheme::ED25519 => 0x0807,
            SignatureScheme::ED448 => 0x0808,
            SignatureScheme::Unknown(x) => x,
        }
    }

    /// The value that decoding `x` gives: the named variant where `x` has one.
    pub open spec fn spec_from_u16(x: u16) -> Self {
        match x {
            0x0201 => SignatureScheme::RSA_PKCS1_SHA1,
            0x0203 => SignatureScheme::ECDSA_SHA1_Legacy,
            0x0401 => SignatureScheme::RSA_PKCS1_SHA256,
            0x0403 => SignatureScheme::ECDSA_NISTP256_SHA256,
            0x0501 => SignatureScheme::RSA_PKCS1_SHA384,
            0x0503 => SignatureScheme::ECDSA_NISTP384_SHA384,
            0x0601 => SignatureScheme::RSA_PKCS1_SHA512,
            0x0603 => SignatureScheme::ECDSA_NISTP521_SHA512,
            0x0804 => SignatureScheme::RSA_PSS_SHA256,
            0x0805 => SignatureScheme::RSA_PSS_SHA384,
            0x0806 => SignatureScheme::RSA_PSS_SHA512,
            0x0807 => SignatureScheme::ED25519,
            0x0808 => SignatureScheme::ED448,
            _ => SignatureScheme::Unknown(x),
        }
    }

    /// A value is canonical when it is what decoding its own code point gives.
    pub open spec fn is_canonical(self) -> bool {
        Self::spec_from_u16(self.value()) == self
    }

    /// Returns the code point of this value.
    pub fn get_u16(&self) -> (v: u16)
        ensures
            v == self.value(),
    {
        match self {
            SignatureScheme::RSA_PKCS1_SHA1 => 0x0201,
            SignatureScheme::ECDSA_SHA1_Legacy => 0x0203,
            SignatureScheme::RSA_PKCS1_SHA256 => 0x0401,
            SignatureScheme::ECDSA_NISTP256_SHA256 => 0x0403,
            SignatureScheme::RSA_PKCS1_SHA384 => 0x0501,
            SignatureScheme::ECDSA_NISTP384_SHA384 => 0x0503,
            SignatureScheme::RSA_PKCS1_SHA512 => 0x0601,
            SignatureScheme::ECDSA_NISTP521_SHA512 => 0x0603,
            SignatureScheme::RSA_PSS_SHA256 => 0x0804,
            SignatureScheme::RSA_PSS_SHA384 => 0x0805,
            SignatureScheme::RSA_PSS_SHA512 => 0x0806,
            SignatureScheme::ED25519 => 0x0807,
            SignatureScheme::ED448 => 0x0808,
            SignatureScheme::Unknown(x) => *x,
        }
    }

    /// Decodes a code point.
    pub fn from_u16(x: u16) -> (r: Self)
        ensures
            r == Self::spec_from_u16(x),
    {
        match x {
            0x0201 => SignatureScheme::RSA_PKCS1_SHA1,
            0x0203 => SignatureScheme::ECDSA_SHA1_Legacy,
            0x0401 => SignatureScheme::RSA_PKCS1_SHA256,
            0x0403 => SignatureScheme::ECDSA_NISTP256_SHA256,
            0x0501 => SignatureScheme::RSA_PKCS1_SHA384,
            0x0503 => SignatureScheme::ECDSA_NISTP384_SHA384,
            0x0601 => SignatureScheme::RSA_PKCS1_SHA512,
            0x0603 => SignatureScheme::ECDSA_NISTP521_SHA512,
            0x0804 => SignatureScheme::RSA_PSS_SHA256,
            0x0805 => SignatureScheme::RSA_PSS_SHA384,
            0x0806 => SignatureScheme::RSA_PSS_SHA512,
            0x0807 => SignatureScheme::ED25519,
            0x0808 => SignatureScheme::ED448,
            _ => SignatureScheme::Unknown(x),
        }
    }

    /// Decoding a code point and encoding the result gives the code point back.
    pub proof fn lemma_value_of_decoded(x: u16)
        ensures
            Self::spec_from_u16(x).value() == x,
            Self::spec_from_u16(x).is_canonical(),
    {
    }
}

/// Certificate compression algorithms (RFC 8879).
///
/// `Unknown` carries any code point without a name of its own.
#[allow(non_camel_case_types)]
#[derive(Clone, Copy, Debug, PartialEq, Eq, Structural)]
pub enum CertificateCompressionAlgorithm {
    Zlib,
    Brotli,
    Zstd,
    Unknown(u16),
}

impl CertificateCompressionAlgorithm {
    /// The code point carried on the wire.
    pub open spec fn value(self) -> u16 {
        match self {
            CertificateCompressionAlgorithm::Zlib => 0x0001,
            CertificateCompressionAlgorithm::Brotli => 0x0002,
            CertificateCompressionAlgorithm::Zstd => 0x0003,
            CertificateCompressionAlgorithm::Unknown(x) => x,
        }
    }

    /// The value that decoding `x` gives: the named variant where `x` has one.
    pub open spec fn spec_from_u16(x: u16) -> Self {
        match x {
            0x0001 => CertificateCompressionAlgorithm::Zlib,
            0x0002 => CertificateCompressionAlgorithm::Brotli,
            0x0003 => CertificateCompressionAlgorithm::Zstd,
            _ => CertificateCompressionAlgorithm::Unknown(x),
        }
    }

    /// A value is canonical when it is what decoding its own code point gives.
    pub open spec fn is_canonical(self) -> bool {
        Self::spec_from_u16(self.value()) == self
    }

    /// Returns the code point of this value.
    pub fn get_u16(&self) -> (v: u16)
        ensures
            v == self.value(),
    {
        match self {
            CertificateCompressionAlgorithm::Zlib => 0x0001,
            CertificateCompressionAlgorithm::Brotli => 0x0002,
            CertificateCompressionAlgorithm::Zstd => 0x0003,
            CertificateCompressionAlgorithm::Unknown(x) => *x,
        }
    }

    /// Decodes a code point.
    pub fn from_u16(x: u16) -> (r: Self)
        ensures
            r == Self::spec_from_u16(x),
    {
        match x {
            0x0001 => CertificateCompressionAlgorithm::Zlib,
            0x0002 => CertificateCompressionAlgorithm::Brotli,
            0x0003 => CertificateCompressionAlgorithm::Zstd,
            _ => CertificateCompressionAlgorithm::Unknown(x),
        }
    }

    /// Decoding a code point and encoding the result gives the code point back.
    pub proof fn lemma_value_of_decoded(x: u16)
        ensures
            Self::spec_from_u16(x).value() == x,
            Self::spec_from_u16(x).is_canonical(),
    {
    }
}

/// TLS extension code points.
///
/// `Unknown` carries any code point without a name of its own.
#[allow(non_camel_case_types)]
#[derive(Clone, Copy, Debug, PartialEq, Eq, Structural)]
pub enum ExtensionType {
    ServerName,
    MaxFragmentLength,
    ClientCertificateUrl,
    TrustedCAKeys,
    TruncatedHMAC,
    StatusRequest,
    UserMapping,
    ClientAuthz,
    ServerAuthz,
    CertificateType,
    EllipticCurves,
    ECPointFormats,
    SRP,
    SignatureAlgorithms,
    UseSRTP,
    Heartbeat,
    ALProtocolNegotiation,
    SCT,
    ClientCertificateType,
    ServerCertificateType,
    Padding,
    ExtendedMasterSecret,
    CompressCertificate,
    SessionTicket,
    PreSharedKey,
    EarlyData,
    SupportedVersions,
    Cookie,
    PSKKeyExchangeModes,
    TicketEarlyDataInfo,
    CertificateAuthorities,
    OIDFilters,
    PostHandshakeAuth,
    SignatureAlgorithmsCert,
    KeyShare,
    TransportParameters,
    NextProtocolNegotiation,
    ChannelId,
    EncryptedClientHelloOuterExtensions,
    EncryptedClientHello,
    RenegotiationInfo,
    TransportParametersDraft,
    Unknown(u16),
}

impl ExtensionType {
    /// The code point carried on the wire.
    pub open spec fn value(self) -> u16 {
        match self {
            ExtensionType::ServerName => 0x0000,
            ExtensionType::MaxFragmentLength => 0x0001,
            ExtensionType::ClientCertificateUrl => 0x0002,
            ExtensionType::TrustedCAKeys => 0x0003,
            ExtensionType::TruncatedHMAC => 0x0004,
            ExtensionType::StatusRequest => 0x0005,
            ExtensionType::UserMapping => 0x0006,
            ExtensionType::ClientAuthz => 0x0007,
            ExtensionType::ServerAuthz => 0x0008,
            ExtensionType::CertificateType => 0x0009,
            ExtensionType::EllipticCurves => 0x000a,
            ExtensionType::ECPointFormats => 0x000b,
            ExtensionType::SRP => 0x000c,
            ExtensionType::SignatureAlgorithms => 0x000d,
            ExtensionType::UseSRTP => 0x000e,
            ExtensionType::Heartbeat => 0x000f,
            ExtensionType::ALProtocolNegotiation => 0x0010,
            ExtensionType::SCT => 0x0012,
            ExtensionType::ClientCertificateType => 0x0013,
            ExtensionType::ServerCertificateType => 0x0014,
            ExtensionType::Padding => 0x0015,
            ExtensionType::ExtendedMasterSecret => 0x0017,
            ExtensionType::CompressCertificate => 0x001b,
            ExtensionType::SessionTicket => 0x0023,
            ExtensionType::PreSharedKey => 0x0029,
            ExtensionType::EarlyData => 0x002a,
            ExtensionType::SupportedVersions => 0x002b,
            ExtensionType::Cookie => 0x002c,
            ExtensionType::PSKKeyExchangeModes => 0x002d,
            ExtensionType::TicketEarlyDataInfo => 0x002e,
            ExtensionType::CertificateAuthorities => 0x002f,
            ExtensionType::OIDFilters => 0x0030,
            ExtensionType::PostHandshakeAuth => 0x0031,
            ExtensionType::SignatureAlgorithmsCert => 0x0032,
            ExtensionType::KeyShare => 0x0033,
            ExtensionType::TransportParameters => 0x0039,
            ExtensionType::NextProtocolNegotiation => 0x3374,
            ExtensionType::ChannelId => 0x754f,
            ExtensionType::EncryptedClientHelloOuterExtensions => 0xfd00,
            ExtensionType::EncryptedClientHello => 0xfe0d,
            ExtensionType::RenegotiationInfo => 0xff01,
            ExtensionType::TransportParametersDraft => 0xffa5,
            ExtensionType::Unknown(x) => x,
        }
    }

    /// The value that decoding `x` gives: the named variant where `x` has one.
    pub open spec fn spec_from_u16(x: u16) -> Self {
        match x {
            0x0000 => ExtensionType::ServerName,
            0x0001 => ExtensionType::MaxFragmentLength,
            0x0002 => ExtensionType::ClientCertificateUrl,
            0x0003 => ExtensionType::TrustedCAKeys,
            0x0004 => ExtensionType::TruncatedHMAC,
            0x0005 => ExtensionType::StatusRequest,
            0x0006 => ExtensionType::UserMapping,
            0x0007 => ExtensionType::ClientAuthz,
            0x0008 => ExtensionType::ServerAuthz,
            0x0009 => ExtensionType::CertificateType,
            0x000a => ExtensionType::EllipticCurves,
            0x000b => ExtensionType::ECPointFormats,
            0x000c => ExtensionType::SRP,
            0x000d => ExtensionType::SignatureAlgorithms,
            0x000e => ExtensionType::UseSRTP,
            0x000f => ExtensionType::Heartbeat,
            0x0010 => ExtensionType::ALProtocolNegotiation,
            0x0012 => ExtensionType::SCT,
            0x0013 => ExtensionType::ClientCertificateType,
            0x0014 => ExtensionType::ServerCertificateType,
            0x0015 => ExtensionType::Padding,
            0x0017 => ExtensionType::ExtendedMasterSecret,
            0x001b => ExtensionType::CompressCertificate,
            0x0023 => ExtensionType::SessionTicket,
            0x0029 => ExtensionType::PreSharedKey,
            0x002a => ExtensionType::EarlyData,
            0x002b => ExtensionType::SupportedVersions,
            0x002c => ExtensionType::Cookie,
            0x002d => ExtensionType::PSKKeyExchangeModes,
            0x002e => ExtensionType::TicketEarlyDataInfo,
            0x002f => ExtensionType::CertificateAuthorities,
            0x0030 => ExtensionType::OIDFilters,
            0x0031 => ExtensionType::PostHandshakeAuth,
            0x0032 => ExtensionType::SignatureAlgorithmsCert,
            0x0033 => ExtensionType::KeyShare,
            0x0039 => ExtensionType::TransportParameters,
            0x3374 => ExtensionType::NextProtocolNegotiation,
            0x754f => ExtensionType::ChannelId,
            0xfd00 => ExtensionType::EncryptedClientHelloOuterExtensions,
            0xfe0d => ExtensionType::EncryptedClientHello,
            0xff01 => ExtensionType::RenegotiationInfo,
            0xffa5 => ExtensionType::TransportParametersDraft,
            _ => ExtensionType::Unknown(x),
        }
    }

    /// A value is canonical when it is what decoding its own code point gives.
    pub open spec fn is_canonical(self) -> bool {
        Self::spec_from_u16(self.value()) == self
    }

    /// Returns the code point of this value.
    pub fn get_u16(&self) -> (v: u16)
        ensures
            v == self.value(),
    {
        match self {
            ExtensionType::ServerName => 0x0000,
            ExtensionType::MaxFragmentLength => 0x0001,
            ExtensionType::ClientCertificateUrl => 0x0002,
            ExtensionType::TrustedCAKeys => 0x0003,
            ExtensionType::TruncatedHMAC => 0x0004,
            ExtensionType::StatusRequest => 0x0005,
            ExtensionType::UserMapping => 0x0006,
            ExtensionType::ClientAuthz => 0x0007,
            ExtensionType::ServerAuthz => 0x0008,
            ExtensionType::CertificateType => 0x0009,
            ExtensionType::EllipticCurves => 0x000a,
            ExtensionType::ECPointFormats => 0x000b,
            ExtensionType::SRP => 0x000c,
            ExtensionType::SignatureAlgorithms => 0x000d,
            ExtensionType::UseSRTP => 0x000e,
            ExtensionType::Heartbeat => 0x000f,
            ExtensionType::ALProtocolNegotiation => 0x0010,
            ExtensionType::SCT => 0x0012,
            ExtensionType::ClientCertificateType => 0x0013,
            ExtensionType::ServerCertificateType => 0x0014,
            ExtensionType::Padding => 0x0015,
            ExtensionType::ExtendedMasterSecret => 0x0017,
            ExtensionType::CompressCertificate => 0x001b,
            ExtensionType::SessionTicket => 0x0023,
            ExtensionType::PreSharedKey => 0x0029,
            ExtensionType::EarlyData => 0x002a,
            ExtensionType::SupportedVersions => 0x002b,
            ExtensionType::Cookie => 0x002c,
            ExtensionType::PSKKeyExchangeModes => 0x002d,
            ExtensionType::TicketEarlyDataInfo => 0x002e,
            ExtensionType::CertificateAuthorities => 0x002f,
            ExtensionType::OIDFilters => 0x0030,
            ExtensionType::PostHandshakeAuth => 0x0031,
            ExtensionType::SignatureAlgorithmsCert => 0x0032,
            ExtensionType::KeyShare => 0x0033,
            ExtensionType::TransportParameters => 0x0039,
            ExtensionType::NextProtocolNegotiation => 0x3374,
            ExtensionType::ChannelId => 0x754f,
            ExtensionType::EncryptedClientHelloOuterExtensions => 0xfd00,
            ExtensionType::EncryptedClientHello => 0xfe0d,
            ExtensionType::RenegotiationInfo => 0xff01,
            ExtensionType::TransportParametersDraft => 0xffa5,
            ExtensionType::Unknown(x) => *x,
        }
    }

    /// Decodes a code point.
    pub fn from_u16(x: u16) -> (r: Self)
        ensures
            r == Self::spec_from_u16(x),
    {
        match x {
            0x0000 => ExtensionType::ServerName,
            0x0001 => ExtensionType::MaxFragmentLength,
            0x0002 => ExtensionType::ClientCertificateUrl,
            0x0003 => ExtensionType::TrustedCAKeys,
            0x0004 => ExtensionType::TruncatedHMAC,
            0x0005 => ExtensionType::StatusRequest,
            0x0006 => ExtensionType::UserMapping,
            0x0007 => ExtensionType::ClientAuthz,
            0x0008 => ExtensionType::ServerAuthz,
            0x0009 => ExtensionType::CertificateType,
            0x000a => ExtensionType::EllipticCurves,
            0x000b => ExtensionType::ECPointFormats,
            0x000c => ExtensionType::SRP,
            0x000d => ExtensionType::SignatureAlgorithms,
            0x000e => ExtensionType::UseSRTP,
            0x000f => ExtensionType::Heartbeat,
            0x0010 => ExtensionType::ALProtocolNegotiation,
            0x0012 => ExtensionType::SCT,
            0x0013 => ExtensionType::ClientCertificateType,
            0x0014 => ExtensionType::ServerCertificateType,
            0x0015 => ExtensionType::Padding,
            0x0017 => ExtensionType::ExtendedMasterSecret,
            0x001b => ExtensionType::CompressCertificate,
            0x0023 => ExtensionType::SessionTicket,
            0x0029 => ExtensionType::PreSharedKey,
            0x002a => ExtensionType::EarlyData,
            0x002b => ExtensionType::SupportedVersions,
            0x002c => ExtensionType::Cookie,
            0x002d => ExtensionType::PSKKeyExchangeModes,
            0x002e => ExtensionType::TicketEarlyDataInfo,
            0x002f => ExtensionType::CertificateAuthorities,
            0x0030 => ExtensionType::OIDFilters,
            0x0031 => ExtensionType::PostHandshakeAuth,
            0x0032 => ExtensionType::SignatureAlgorithmsCert,
            0x0033 => ExtensionType::KeyShare,
            0x0039 => ExtensionType::TransportParameters,
            0x3374 => ExtensionType::NextProtocolNegotiation,
            0x754f => ExtensionType::ChannelId,
            0xfd00 => ExtensionType::EncryptedClientHelloOuterExtensions,
            0xfe0d => ExtensionType::EncryptedClientHello,
            0xff01 => ExtensionType::RenegotiationInfo,
            0xffa5 => ExtensionType::TransportParametersDraft,
            _ => ExtensionType::Unknown(x),
        }
    }

    /// Decoding a code point and encoding the result gives the code point back.
    pub proof fn lemma_value_of_decoded(x: u16)
        ensures
            Self::spec_from_u16(x).value() == x,
            Self::spec_from_u16(x).is_canonical(),
    {
    }
}

} // verus!

verus! {

/// Types that go on the wire as a 16-bit code point.
pub trait CodePoint: Sized {
    /// The code point of this value.
    spec fn code(&self) -> u16;

    /// Returns the code point of this value.
    fn code_point(&self) -> (v: u16)
        ensures
            v == self.code(),
    ;
}

impl CodePoint for CipherSuite {
    open spec fn code(&self) -> u16 {
        self.value()
    }

    fn code_point(&self) -> (v: u16) {
        self.get_u16()
    }
}

impl CodePoint for NamedGroup {
    open spec fn code(&self) -> u16 {
        self.value()
    }

    fn code_point(&self) -> (v: u16) {
        self.get_u16()
    }
}

impl CodePoint for SignatureScheme {
    open spec fn code(&self) -> u16 {
        self.value()
    }

    fn code_point(&self) -> (v: u16) {
        self.get_u16()
    }
}

impl CodePoint for CertificateCompressionAlgorithm {
    open spec fn code(&self) -> u16 {
        self.value()
    }

    fn code_point(&self) -> (v: u16) {
        self.get_u16()
    }
}

impl CodePoint for ExtensionType {
    open spec fn code(&self) -> u16 {
        self.value()
    }

    fn code_point(&self) -> (v: u16) {
        self.get_u16()
    }
}

impl CodePoint for ProtocolVersion {
    open spec fn code(&self) -> u16 {
        self.value()
    }

    fn code_point(&self) -> (v: u16) {
        self.get_u16()
    }
}

} // verus!
