use vstd::prelude::*;
use crate::connection::CacheKey;

verus! {

/// A cache of the three secrets a connection keeps between runs, each stored
/// in a file of its own. The library holds the contents; the files mirror
/// them.
pub struct Cache {
    cert_file_path: String,
    private_key_file_path: String,
    api_session_file_path: String,
    certificate: Option<Vec<u8>>,
    private_key: Option<Vec<u8>>,
    api_session: Option<Vec<u8>>,
}

/// The mathematical content of a [Cache]: what each key holds.
pub open spec fn cache_entry(c: CacheView, key: CacheKey) -> Option<Seq<u8>> {
    match key {
        CacheKey::Certificate => c.certificate,
        CacheKey::PrivateKey => c.private_key,
        CacheKey::ApiSession => c.api_session,
    }
}

pub struct CacheView {
    pub cert_file_path: Seq<char>,
    pub private_key_file_path: Seq<char>,
    pub api_session_file_path: Seq<char>,
    pub certificate: Option<Seq<u8>>,
    pub private_key: Option<Seq<u8>>,
    pub api_session: Option<Seq<u8>>,
}

pub open spec fn bytes_view(b: Option<Vec<u8>>) -> Option<Seq<u8>> {
    match b {
        Some(v) => Some(v@),
        None => None,
    }
}

impl View for Cache {
    type V = CacheView;

    closed spec fn view(&self) -> CacheView {
        CacheView {
            cert_file_path: self.cert_file_path@,
            private_key_file_path: self.private_key_file_path@,
            api_session_file_path: self.api_session_file_path@,
            certificate: bytes_view(self.certificate),
            private_key: bytes_view(self.private_key),
            api_session: bytes_view(self.api_session),
        }
    }
}

fn copy_bytes(b: &Option<Vec<u8>>) -> (r: Option<Vec<u8>>)
    ensures
        bytes_view(r) == bytes_view(*b),
{
    match b {
        Some(v) => {
            let c = v.clone();
            assert(c@ =~= v@);
            Some(c)
        },
        None => None,
    }
}

impl Cache {
    /// A cache whose files are at the given paths; nothing is known of their
    /// contents yet.
    pub fn new(cert_file_path: &str, private_key_file_path: &str, api_session_file_path: &str) -> (r: Cache)
        ensures
            r@.cert_file_path == cert_file_path@,
            r@.private_key_file_path == private_key_file_path@,
            r@.api_session_file_path == api_session_file_path@,
            forall|k: CacheKey| cache_entry(r@, k) is None,
    {
        Cache {
            cert_file_path: cert_file_path.to_string(),
            private_key_file_path: private_key_file_path.to_string(),
            api_session_file_path: api_session_file_path.to_string(),
            certificate: None,
            private_key: None,
            api_session: None,
        }
    }

    /// The file of a key.
    pub fn path_of(&self, key: CacheKey) -> (r: &String)
        ensures
            r@ == match key {
                CacheKey::Certificate => self@.cert_file_path,
                CacheKey::PrivateKey => self@.private_key_file_path,
                CacheKey::ApiSession => self@.api_session_file_path,
            },
    {
        match key {
            CacheKey::Certificate => &self.cert_file_path,
            CacheKey::PrivateKey => &self.private_key_file_path,
            CacheKey::ApiSession => &self.api_session_file_path,
        }
    }

    /// What a key holds, copied.
    pub fn get_bytes(&self, key: CacheKey) -> (r: Option<Vec<u8>>)
        ensures
            bytes_view(r) == cache_entry(self@, key),
    {
        match key {
            CacheKey::Certificate => copy_bytes(&self.certificate),
            CacheKey::PrivateKey => copy_bytes(&self.private_key),
            CacheKey::ApiSession => copy_bytes(&self.api_session),
        }
    }

    /// Stores data under a key; the other keys keep what they hold.
    pub fn put(&mut self, key: CacheKey, data: Vec<u8>)
        ensures
            cache_entry(final(self)@, key) == Some(data@),
            forall|k: CacheKey| k != key ==> cache_entry(final(self)@, k) == cache_entry(old(self)@, k),
            final(self)@.cert_file_path == old(self)@.cert_file_path,
            final(self)@.private_key_file_path == old(self)@.private_key_file_path,
            final(self)@.api_session_file_path == old(self)@.api_session_file_path,
    {
        match key {
            CacheKey::Certificate => self.certificate = Some(data),
            CacheKey::PrivateKey => self.private_key = Some(data),
            CacheKey::ApiSession => self.api_session = Some(data),
        }
    }

    /// Forgets what a key holds; the other keys keep what they hold.
    pub fn remove(&mut self, key: CacheKey)
        ensures
            cache_entry(final(self)@, key) is None,
            forall|k: CacheKey| k != key ==> cache_entry(final(self)@, k) == cache_entry(old(self)@, k),
            final(self)@.cert_file_path == old(self)@.cert_file_path,
            final(self)@.private_key_file_path == old(self)@.private_key_file_path,
            final(self)@.api_session_file_path == old(self)@.api_session_file_path,
    {
        match key {
            CacheKey::Certificate => self.certificate = None,
            CacheKey::PrivateKey => self.private_key = None,
            CacheKey::ApiSession => self.api_session = None,
        }
    }

    /// Forgets everything.
    pub fn clear_all(&mut self)
        ensures
            forall|k: CacheKey| cache_entry(final(self)@, k) is None,
            final(self)@.cert_file_path == old(self)@.cert_file_path,
            final(self)@.private_key_file_path == old(self)@.private_key_file_path,
            final(self)@.api_session_file_path == old(self)@.api_session_file_path,
    {
        self.remove(CacheKey::ApiSession);
        self.remove(CacheKey::Certificate);
        self.remove(CacheKey::PrivateKey);
    }
}

/// A read gives back the last write of the same key, whatever was written to
/// other keys since.
pub proof fn law_read_gives_last_write(before: CacheView, after_put: CacheView, after_other: CacheView, key: CacheKey, other: CacheKey, data: Seq<u8>, other_data: Option<Seq<u8>>)
    requires
        cache_entry(after_put, key) == Some(data),
        key != other,
        cache_entry(after_other, other) == other_data,
        forall|k: CacheKey| k != other ==> cache_entry(after_other, k) == cache_entry(after_put, k),
    ensures
        cache_entry(after_other, key) == Some(data),
{
}

/// The registry path of the network list profiles, as its components.
pub fn get_profiles_path() -> (r: Vec<String>)
    ensures
        r@.len() == 6,
        r@[0]@ == "SOFTWARE"@,
        r@[1]@ == "Microsoft"@,
        r@[2]@ == "Windows NT"@,
        r@[3]@ == "CurrentVersion"@,
        r@[4]@ == "NetworkList"@,
        r@[5]@ == "Profiles"@,
{
    let mut r: Vec<String> = Vec::new();
    r.push("SOFTWARE".to_string());
    r.push("Microsoft".to_string());
    r.push("Windows NT".to_string());
    r.push("CurrentVersion".to_string());
    r.push("NetworkList".to_string());
    r.push("Profiles".to_string());
    r
}

/// The registry path where the library keeps its own values, as its components.
pub fn get_protun_path() -> (r: Vec<String>)
    ensures
        r@.len() == 4,
        r@[0]@ == "SOFTWARE"@,
        r@[1]@ == "Proton AG"@,
        r@[2]@ == "Proton VPN"@,
        r@[3]@ == "ProTUN"@,
{
    let mut r: Vec<String> = Vec::new();
    r.push("SOFTWARE".to_string());
    r.push("Proton AG".to_string());
    r.push("Proton VPN".to_string());
    r.push("ProTUN".to_string());
    r
}

} // verus!
