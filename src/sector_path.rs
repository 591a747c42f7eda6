use vstd::prelude::*;

verus! {

/// What a descriptor of an object-storage location holds, as sequences of
/// characters.
pub struct SectorPathInfoView {
    pub bucket: Seq<char>,
    pub key: Seq<char>,
    pub endpoint: Option<Seq<char>>,
}

impl SectorPathInfoView {
    /// The value that stands for "no object-storage location configured".
    pub open spec fn empty() -> SectorPathInfoView {
        SectorPathInfoView { bucket: Seq::empty(), key: Seq::empty(), endpoint: None }
    }

    /// A descriptor names an object when both its store and its key are set.
    pub open spec fn is_populated(self) -> bool {
        self.bucket.len() > 0 && self.key.len() > 0
    }
}

/// The model of an optional string.
pub open spec fn option_string_view(o: Option<String>) -> Option<Seq<char>> {
    match o {
        Some(s) => Some(s@),
        None => None,
    }
}

/// Where one asset of a sector lies inside an object-storage service: the
/// store (bucket), the object key inside it, and optionally the endpoint or
/// region to reach it by. Credentials are resolved elsewhere and never held
/// here.
#[derive(Clone, Debug, Eq, Hash)]
pub struct PrivateSectorPathInfo {
    pub(crate) bucket: String,
    pub(crate) key: String,
    pub(crate) endpoint: Option<String>,
}

impl View for PrivateSectorPathInfo {
    type V = SectorPathInfoView;

    closed spec fn view(&self) -> SectorPathInfoView {
        SectorPathInfoView {
            bucket: self.bucket@,
            key: self.key@,
            endpoint: option_string_view(self.endpoint),
        }
    }
}

fn is_blank(s: &String) -> (r: bool)
    ensures
        r == (s@.len() == 0),
{
    let r = *s == String::new();
    assert(s@.len() == 0 ==> s@ =~= Seq::<char>::empty());
    r
}

fn option_strings_equal(a: &Option<String>, b: &Option<String>) -> (r: bool)
    ensures
        r == (option_string_view(*a) == option_string_view(*b)),
{
    match (a, b) {
        (Some(x), Some(y)) => *x == *y,
        (None, None) => true,
        _ => false,
    }
}

impl PartialEq for PrivateSectorPathInfo {
    fn eq(&self, other: &PrivateSectorPathInfo) -> (r: bool) {
        self.bucket == other.bucket && self.key == other.key && option_strings_equal(
            &self.endpoint,
            &other.endpoint,
        )
    }
}

impl vstd::std_specs::cmp::PartialEqSpecImpl for PrivateSectorPathInfo {
    open spec fn obeys_eq_spec() -> bool {
        true
    }

    open spec fn eq_spec(&self, other: &PrivateSectorPathInfo) -> bool {
        self@ == other@
    }
}

impl Default for PrivateSectorPathInfo {
    /// No object-storage location: empty store, empty key, no endpoint.
    fn default() -> (r: PrivateSectorPathInfo)
        ensures
            r@ == SectorPathInfoView::empty(),
    {
        PrivateSectorPathInfo { bucket: String::new(), key: String::new(), endpoint: None }
    }
}

impl PrivateSectorPathInfo {
    pub fn new(bucket: String, key: String, endpoint: Option<String>) -> (r: PrivateSectorPathInfo)
        ensures
            r@ == (SectorPathInfoView {
                bucket: bucket@,
                key: key@,
                endpoint: option_string_view(endpoint),
            }),
    {
        PrivateSectorPathInfo { bucket, key, endpoint }
    }

    pub fn bucket(&self) -> (r: &str)
        ensures
            r@ == self@.bucket,
    {
        self.bucket.as_str()
    }

    pub fn key(&self) -> (r: &str)
        ensures
            r@ == self@.key,
    {
        self.key.as_str()
    }

    pub fn endpoint(&self) -> (r: Option<&str>)
        ensures
            r matches Some(e) ==> self@.endpoint == Some(e@),
            r is None ==> self@.endpoint is None,
    {
        match &self.endpoint {
            Some(e) => Some(e.as_str()),
            None => None,
        }
    }

    /// Whether both the store and the object key are set, so that the
    /// descriptor names an object.
    pub fn is_populated(&self) -> (r: bool)
        ensures
            r == self@.is_populated(),
    {
        !is_blank(&self.bucket) && !is_blank(&self.key)
    }
}

} // verus!
