use rustls_pemfile::Item;
use vstd::prelude::*;
use vstd::string::*;

verus! {

/// One section of a PEM file with the DER octets that it holds.
#[derive(Clone, Debug, PartialEq, Eq)]
pub enum PemItem {
    Certificate(Vec<u8>),
    RsaKey(Vec<u8>),
    Pkcs8Key(Vec<u8>),
    EcKey(Vec<u8>),
    /// A section of another kind.
    Other,
}

/// A `PemItem` with its octets as a sequence.
pub ghost enum Section {
    Certificate(Seq<u8>),
    RsaKey(Seq<u8>),
    Pkcs8Key(Seq<u8>),
    EcKey(Seq<u8>),
    Other,
}

impl View for PemItem {
    type V = Section;

    open spec fn view(&self) -> Section {
        match self {
            PemItem::Certificate(der) => Section::Certificate(der@),
            PemItem::RsaKey(der) => Section::RsaKey(der@),
            PemItem::Pkcs8Key(der) => Section::Pkcs8Key(der@),
            PemItem::EcKey(der) => Section::EcKey(der@),
            PemItem::Other => Section::Other,
        }
    }
}

/// Why a certificate or a key could not be had from a PEM file.
#[derive(Clone, Debug, PartialEq, Eq)]
pub enum LoadError {
    /// The file does not hold what was looked for.
    Invalid(String),
    /// The file could not be read as PEM; the message is the reader's.
    Unreadable(String),
}

/// A `LoadError` with its message as a text.
pub ghost enum LoadFault {
    Invalid(Seq<char>),
    Unreadable(Seq<char>),
}

impl View for LoadError {
    type V = LoadFault;

    open spec fn view(&self) -> LoadFault {
        match self {
            LoadError::Invalid(m) => LoadFault::Invalid(m@),
            LoadError::Unreadable(m) => LoadFault::Unreadable(m@),
        }
    }
}

/// The certificates that `rustls_pemfile::certs` finds in the octets of a PEM file,
/// each as its DER octets, or nothing where it fails on them.
pub uninterp spec fn pem_certs(pem: Seq<u8>) -> Option<Seq<Seq<u8>>>;

/// What `rustls_pemfile::read_one` gives at the start of the octets of a PEM file:
/// the first section of a kind it knows, none where there is none, or the message
/// of its error.
pub uninterp spec fn pem_first(pem: Seq<u8>) -> Result<Option<Section>, Seq<char>>;

/// A vector of buffers, each as its octets.
pub open spec fn ders(v: Seq<Vec<u8>>) -> Seq<Seq<u8>> {
    Seq::new(v.len(), |i: int| v[i]@)
}

/// What was read of the certificates of a file, each as its octets.
pub open spec fn read_view(r: Option<Vec<Vec<u8>>>) -> Option<Seq<Seq<u8>>> {
    match r {
        Some(v) => Some(ders(v@)),
        None => None,
    }
}

/// What was read at the start of a file, as views.
pub open spec fn first_view(r: Result<Option<PemItem>, String>) -> Result<
    Option<Section>,
    Seq<char>,
> {
    match r {
        Ok(Some(item)) => Ok(Some(item@)),
        Ok(None) => Ok(None),
        Err(e) => Err(e@),
    }
}

/// `rustls_pemfile::certs` on a buffer, its error dropped.
#[verifier::external_body]
fn read_certs(pem: &[u8]) -> (r: Option<Vec<Vec<u8>>>)
    ensures
        read_view(r) == pem_certs(pem@),
{
    let mut reader = pem;
    rustls_pemfile::certs(&mut reader).ok()
}

/// `rustls_pemfile::read_one` on a buffer, the section handed back as a `PemItem`
/// and an error as its message.
#[verifier::external_body]
fn read_first(pem: &[u8]) -> (r: Result<Option<PemItem>, String>)
    ensures
        first_view(r) == pem_first(pem@),
{
    let mut reader = pem;
    match rustls_pemfile::read_one(&mut reader) {
        Ok(Some(Item::X509Certificate(der))) => Ok(Some(PemItem::Certificate(der))),
        Ok(Some(Item::RSAKey(der))) => Ok(Some(PemItem::RsaKey(der))),
        Ok(Some(Item::PKCS8Key(der))) => Ok(Some(PemItem::Pkcs8Key(der))),
        Ok(Some(Item::ECKey(der))) => Ok(Some(PemItem::EcKey(der))),
        Ok(Some(_)) => Ok(Some(PemItem::Other)),
        Ok(None) => Ok(None),
        Err(e) => Err(e.to_string()),
    }
}

/// The certificates of the file at `path`, where `read` is what reading them gave:
/// a file that could not be read is an invalid one.
pub fn certificates(path: &str, read: Option<Vec<Vec<u8>>>) -> (r: Result<
    Vec<Vec<u8>>,
    LoadError,
>)
    ensures
        match read {
            Some(certs) => r == Ok::<Vec<Vec<u8>>, LoadError>(certs),
            None => r matches Err(e) && e@ == LoadFault::Invalid("invalid cert at "@ + path@),
        },
{
    match read {
        Some(certs) => Ok(certs),
        None => {
            let mut message = "invalid cert at ".to_owned();
            message.append(path);
            Err(LoadError::Invalid(message))
        },
    }
}

/// The private key of the file at `path`, where `first` is what reading the start
/// of the file gave: the octets of a first section that is a key of one of the
/// three kinds. Any other first section, or none, makes the file an invalid one.
pub fn private_key(path: &str, first: Result<Option<PemItem>, String>) -> (r: Result<
    Vec<u8>,
    LoadError,
>)
    ensures
        match first {
            Ok(Some(PemItem::RsaKey(der))) => r == Ok::<Vec<u8>, LoadError>(der),
            Ok(Some(PemItem::Pkcs8Key(der))) => r == Ok::<Vec<u8>, LoadError>(der),
            Ok(Some(PemItem::EcKey(der))) => r == Ok::<Vec<u8>, LoadError>(der),
            Ok(_) => r matches Err(e) && e@ == LoadFault::Invalid("invalid key at "@ + path@),
            Err(message) => r matches Err(e) && e@ == LoadFault::Unreadable(message@),
        },
{
    match first {
        Ok(Some(PemItem::RsaKey(der))) => Ok(der),
        Ok(Some(PemItem::Pkcs8Key(der))) => Ok(der),
        Ok(Some(PemItem::EcKey(der))) => Ok(der),
        Ok(_) => {
            let mut message = "invalid key at ".to_owned();
            message.append(path);
            Err(LoadError::Invalid(message))
        },
        Err(message) => Err(LoadError::Unreadable(message)),
    }
}

/// What `private_key` gives for what stands at the start of a file.
pub open spec fn key_of(path: Seq<char>, first: Result<Option<Section>, Seq<char>>) -> Result<
    Seq<u8>,
    LoadFault,
> {
    match first {
        Ok(Some(Section::RsaKey(der))) => Ok(der),
        Ok(Some(Section::Pkcs8Key(der))) => Ok(der),
        Ok(Some(Section::EcKey(der))) => Ok(der),
        Ok(_) => Err(LoadFault::Invalid("invalid key at "@ + path)),
        Err(message) => Err(LoadFault::Unreadable(message)),
    }
}

/// The certificates in the octets `pem` of the file at `path`, in the order in
/// which they stand there, each as its DER octets.
pub fn load_certs(path: &str, pem: &[u8]) -> (r: Result<Vec<Vec<u8>>, LoadError>)
    ensures
        match pem_certs(pem@) {
            Some(certs) => r matches Ok(v) && ders(v@) == certs,
            None => r matches Err(e) && e@ == LoadFault::Invalid("invalid cert at "@ + path@),
        },
{
    certificates(path, read_certs(pem))
}

/// The private key in the octets `pem` of the file at `path`, as its DER octets:
/// the first section, which must be an RSA, a PKCS#8 or an EC key.
pub fn load_keys(path: &str, pem: &[u8]) -> (r: Result<Vec<u8>, LoadError>)
    ensures
        match r {
            Ok(der) => key_of(path@, pem_first(pem@)) == Ok::<Seq<u8>, LoadFault>(der@),
            Err(e) => key_of(path@, pem_first(pem@)) == Err::<Seq<u8>, LoadFault>(e@),
        },
{
    private_key(path, read_first(pem))
}

} // verus!
