//! Translation of a storage URL into a blob address: the account, the
//! container and the blob name.
use vstd::prelude::*;

verus! {

/// The domain under which every storage account is served.
pub open spec fn storage_suffix() -> Seq<char> {
    ".blob.core.windows.net"@
}

/// `suf` is the tail of `s`.
pub open spec fn ends_with(s: Seq<char>, suf: Seq<char>) -> bool {
    suf.len() <= s.len() && s.subrange(s.len() - suf.len(), s.len() as int) == suf
}

/// `s` with every trailing repetition of a non-empty `suf` removed.
pub open spec fn trim_suffix_all(s: Seq<char>, suf: Seq<char>) -> Seq<char>
    decreases s.len(),
{
    if suf.len() > 0 && ends_with(s, suf) {
        trim_suffix_all(s.subrange(0, s.len() - suf.len()), suf)
    } else {
        s
    }
}

/// The segments joined with a single `/` between each two of them.
pub open spec fn join_with_slash(segs: Seq<Seq<char>>) -> Seq<char>
    decreases segs.len(),
{
    if segs.len() == 0 {
        Seq::empty()
    } else if segs.len() == 1 {
        segs[0]
    } else {
        join_with_slash(segs.drop_last()) + seq!['/'] + segs.last()
    }
}

/// Why a URL does not name a blob.
#[derive(PartialEq, Eq, Structural, Clone, Copy, Debug)]
pub enum UrlError {
    /// The text is not a URL at all.
    Unparsable,
    /// The URL has no host.
    NoHost,
    /// The URL cannot be split into path segments.
    NoPathSegments,
    /// The URL names no container.
    NoContainer,
}

/// The account, container and blob name of one blob.
#[derive(Clone, Debug)]
pub struct BlobAddress {
    pub account: String,
    pub container: String,
    pub blob_name: String,
}

/// The three parts of an address, as character sequences.
pub type AddressView = (Seq<char>, Seq<char>, Seq<char>);

impl View for BlobAddress {
    type V = AddressView;

    open spec fn view(&self) -> AddressView {
        (self.account@, self.container@, self.blob_name@)
    }
}

/// The model of a parse result.
pub open spec fn address_result_view(r: Result<BlobAddress, UrlError>) -> Result<AddressView, UrlError> {
    match r {
        Ok(a) => Ok(a@),
        Err(e) => Err(e),
    }
}

/// The address that a host and a list of path segments name.
pub open spec fn address_of_parts(host: Option<Seq<char>>, segments: Option<Seq<Seq<char>>>) -> Result<AddressView, UrlError> {
    match host {
        None => Err(UrlError::NoHost),
        Some(h) => match segments {
            None => Err(UrlError::NoPathSegments),
            Some(segs) => if segs.len() == 0 || segs[0].len() == 0 {
                Err(UrlError::NoContainer)
            } else {
                Ok((trim_suffix_all(h, storage_suffix()), segs[0], join_with_slash(segs.drop_first())))
            },
        },
    }
}

/// The host and path segments of a URL, as the `url` crate reads them, or
/// `None` where the text is not a URL.
pub uninterp spec fn url_parts_of(s: Seq<char>) -> Option<(Option<Seq<char>>, Option<Seq<Seq<char>>>)>;

/// The address that the text of a URL names.
pub open spec fn address_of_url(url: Seq<char>) -> Result<AddressView, UrlError> {
    match url_parts_of(url) {
        None => Err(UrlError::Unparsable),
        Some((host, segments)) => address_of_parts(host, segments),
    }
}

/// Relies on `url::Url::parse`, `Url::host_str` and `Url::path_segments`:
/// the host and the path segments depend on the text alone.
#[verifier::external_body]
fn url_parts(s: &str) -> (r: Option<(Option<String>, Option<Vec<String>>)>)
    ensures
        r.deep_view() == url_parts_of(s@),
{
    match url::Url::parse(s) {
        Ok(u) => Some((
            u.host_str().map(String::from),
            u.path_segments().map(|p| p.map(String::from).collect()),
        )),
        Err(_) => None,
    }
}

/// Whether the first `end` characters of `s` end with `suf`.
fn ends_with_at(s: &str, end: usize, suf: &str) -> (r: bool)
    requires
        end <= s@.len(),
    ensures
        r == ends_with(s@.subrange(0, end as int), suf@),
{
    let k = suf.unicode_len();
    if k > end {
        return false;
    }
    let start = end - k;
    let mut i: usize = 0;
    while i < k
        invariant
            k == suf@.len(),
            start + k == end,
            end <= s@.len(),
            i <= k,
            forall|j: int| 0 <= j < i ==> s@[start + j] == suf@[j],
        decreases k - i,
    {
        if s.get_char(start + i) != suf.get_char(i) {
            assert(s@.subrange(0, end as int).subrange(start as int, end as int)[i as int] != suf@[i as int]);
            return false;
        }
        i = i + 1;
    }
    assert(s@.subrange(0, end as int).subrange(start as int, end as int) =~= suf@);
    true
}

/// Removes every trailing repetition of the storage domain suffix from a
/// host name; a host without the suffix is returned as it is.
pub fn trim_storage_suffix(host: &str) -> (r: String)
    ensures
        r@ == trim_suffix_all(host@, storage_suffix()),
{
    let suf = ".blob.core.windows.net";
    proof {
        reveal_strlit(".blob.core.windows.net");
    }
    let k = suf.unicode_len();
    let mut end = host.unicode_len();
    assert(host@.subrange(0, end as int) =~= host@);
    while ends_with_at(host, end, suf)
        invariant
            end <= host@.len(),
            k == suf@.len(),
            k > 0,
            suf@ == storage_suffix(),
            trim_suffix_all(host@.subrange(0, end as int), suf@) == trim_suffix_all(host@, suf@),
        decreases end,
    {
        assert(host@.subrange(0, end as int).subrange(0, end - k) =~= host@.subrange(0, end - k));
        end = end - k;
    }
    String::from_str(host.substring_char(0, end))
}

/// Joins path segments with `/`, starting at segment `from`.
pub fn join_segments(segs: &Vec<String>, from: usize) -> (r: String)
    requires
        from <= segs@.len(),
    ensures
        r@ == join_with_slash(segs.deep_view().subrange(from as int, segs@.len() as int)),
{
    let mut out = String::new();
    let mut i = from;
    while i < segs.len()
        invariant
            from <= i <= segs@.len(),
            out@ == join_with_slash(segs.deep_view().subrange(from as int, i as int)),
        decreases segs@.len() - i,
    {
        let ghost prev = segs.deep_view().subrange(from as int, i as int);
        let ghost next = segs.deep_view().subrange(from as int, i + 1);
        assert(next.drop_last() =~= prev);
        proof {
            reveal_strlit("/");
        }
        assert("/"@ =~= seq!['/']);
        assert(next.last() == segs[i as int]@);
        if i > from {
            out.append("/");
        }
        out.append(segs[i].as_str());
        proof {
            if i == from {
                assert(out@ =~= next[0]);
            } else {
                assert(out@ =~= join_with_slash(prev) + seq!['/'] + next.last());
            }
        }
        i = i + 1;
    }
    out
}

/// The address that a host and the path segments of a URL name.
pub fn address_from_parts(host: Option<&str>, segments: Option<&Vec<String>>) -> (r: Result<BlobAddress, UrlError>)
    ensures
        address_result_view(r) == address_of_parts(
            match host { Some(h) => Some(h@), None => None },
            match segments { Some(s) => Some(s.deep_view()), None => None },
        ),
{
    let h = match host {
        Some(h) => h,
        None => return Err(UrlError::NoHost),
    };
    let segs = match segments {
        Some(s) => s,
        None => return Err(UrlError::NoPathSegments),
    };
    if segs.len() == 0 || segs[0].unicode_len() == 0 {
        return Err(UrlError::NoContainer);
    }
    let account = trim_storage_suffix(h);
    let container = segs[0].clone();
    let blob_name = join_segments(segs, 1);
    assert(segs.deep_view().subrange(1, segs@.len() as int) =~= segs.deep_view().drop_first());
    Ok(BlobAddress { account, container, blob_name })
}

/// The address that the text of a URL names.
pub fn address_from_url(url: &str) -> (r: Result<BlobAddress, UrlError>)
    ensures
        address_result_view(r) == address_of_url(url@),
{
    match url_parts(url) {
        None => Err(UrlError::Unparsable),
        Some((host, segments)) => {
            let h = match &host {
                Some(h) => Some(h.as_str()),
                None => None,
            };
            let s = match &segments {
                Some(s) => Some(s),
                None => None,
            };
            address_from_parts(h, s)
        },
    }
}

/// Parsing the same URL twice gives the same account, container and blob
/// name both times.
pub proof fn lemma_address_deterministic(
    url: Seq<char>,
    r1: Result<BlobAddress, UrlError>,
    r2: Result<BlobAddress, UrlError>,
)
    requires
        address_result_view(r1) == address_of_url(url),
        address_result_view(r2) == address_of_url(url),
    ensures
        address_result_view(r1) == address_result_view(r2),
{
}

} // verus!
