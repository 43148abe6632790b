use vstd::prelude::*;

verus! {

/// Buffers of at most this many bytes are never classified.
pub const MIN_CLASSIFIED_LEN: usize = 24;

/// Offset of the superblock's compression-id field.
pub const COMPRESSION_ID_OFFSET: usize = 24;

/// Compression-id value that marks LZMA.
pub const LZMA_COMPRESSION_ID: u8 = 0x02;

/// Number of leading bytes that the fallback scan looks at.
pub const HEAD_SCAN_LEN: usize = 1024;

/// The canonical LZMA stream header.
pub open spec fn lzma_header() -> Seq<u8> {
    seq![0x5du8, 0x00u8, 0x00u8, 0x80u8]
}

/// A looser LZMA stream header, accepted only by the fallback scan.
pub open spec fn loose_lzma_header() -> Seq<u8> {
    seq![0x5du8, 0x00u8, 0x00u8, 0x00u8]
}

/// Little-endian container magic, `hsqs`.
pub open spec fn magic_le() -> Seq<u8> {
    seq![0x68u8, 0x73u8, 0x71u8, 0x73u8]
}

/// Big-endian container magic, `sqsh`.
pub open spec fn magic_be() -> Seq<u8> {
    seq![0x73u8, 0x71u8, 0x73u8, 0x68u8]
}

/// True when the bytes of `data` starting at `i` are exactly `sig`.
pub open spec fn sig_at(data: Seq<u8>, i: int, sig: Seq<u8>) -> bool {
    0 <= i && i + sig.len() <= data.len() && data.subrange(i, i + sig.len()) == sig
}

/// Whether some window of `data` equals `sig`.
pub open spec fn has_sig(data: Seq<u8>, sig: Seq<u8>) -> bool {
    exists|i: int| #[trigger] sig_at(data, i, sig)
}

/// Whether a 6-byte window of `data` starts with `5d 00 00` at `i`.
pub open spec fn relaxed_at(data: Seq<u8>, i: int) -> bool {
    0 <= i && i + 6 <= data.len() && data[i] == 0x5d && data[i + 1] == 0x00 && data[i + 2] == 0x00
}

/// The container magic test: more than 24 bytes, starting with `hsqs` or `sqsh`.
pub open spec fn is_container(data: Seq<u8>) -> bool {
    data.len() > MIN_CLASSIFIED_LEN && (data.take(4) == magic_le() || data.take(4) == magic_be())
}

/// Signal a: the LZMA header anywhere in the buffer.
pub open spec fn header_signal(data: Seq<u8>) -> bool {
    has_sig(data, lzma_header())
}

/// Signal b: the superblock's compression-id field says LZMA, or holds the LZMA header.
pub open spec fn superblock_signal(data: Seq<u8>) -> bool {
    data.len() > COMPRESSION_ID_OFFSET && (data[COMPRESSION_ID_OFFSET as int]
        == LZMA_COMPRESSION_ID || sig_at(data, COMPRESSION_ID_OFFSET as int, lzma_header()))
}

/// Signal c: some 6-byte window starts with `5d 00 00`.
pub open spec fn relaxed_signal(data: Seq<u8>) -> bool {
    exists|i: int| #[trigger] relaxed_at(data, i)
}

/// The LZMA verdict on a buffer: `None` when it is no container, else whether a signal fired.
pub open spec fn classification(data: Seq<u8>) -> Option<bool> {
    if is_container(data) {
        Some(header_signal(data) || superblock_signal(data) || relaxed_signal(data))
    } else {
        None
    }
}

/// What the fallback scan reports for the leading bytes of a file.
pub open spec fn head_verdict(head: Seq<u8>) -> bool {
    let w = if head.len() > HEAD_SCAN_LEN {
        head.take(HEAD_SCAN_LEN as int)
    } else {
        head
    };
    has_sig(w, lzma_header()) || has_sig(w, loose_lzma_header())
}

/// The three independent signals, each evaluated on its own.
#[derive(Clone, Copy, Debug, PartialEq, Eq)]
pub struct LzmaSignals {
    pub header_scan: bool,
    pub superblock_field: bool,
    pub relaxed_scan: bool,
}

impl LzmaSignals {
    /// Whether any of the signals fired.
    pub fn any(&self) -> (r: bool)
        ensures
            r == (self.header_scan || self.superblock_field || self.relaxed_scan),
    {
        self.header_scan || self.superblock_field || self.relaxed_scan
    }
}

/// Looks for the 4-byte `sig` among the windows that lie within the first `end` bytes.
pub fn scan_signature(data: &[u8], end: usize, sig: &[u8]) -> (r: bool)
    requires
        sig@.len() == 4,
        end <= data@.len(),
    ensures
        r == has_sig(data@.take(end as int), sig@),
{
    let ghost w = data@.take(end as int);
    if end < 4 {
        assert forall|i: int| !sig_at(w, i, sig@) by {}
        return false;
    }
    let mut i: usize = 0;
    while i <= end - 4
        invariant
            end <= data@.len(),
            end >= 4,
            sig@.len() == 4,
            w == data@.take(end as int),
            i <= end - 3,
            forall|j: int| 0 <= j < i ==> !sig_at(w, j, sig@),
        decreases end - i,
    {
        let hit = data[i] == sig[0] && data[i + 1] == sig[1] && data[i + 2] == sig[2] && data[i
            + 3] == sig[3];
        if hit {
            assert(w.subrange(i as int, i + 4) =~= sig@);
            assert(sig_at(w, i as int, sig@));
            return true;
        }
        assert(!sig_at(w, i as int, sig@)) by {
            if sig_at(w, i as int, sig@) {
                assert(w.subrange(i as int, i + 4)[0] == w[i as int]);
                assert(w.subrange(i as int, i + 4)[1] == w[i + 1]);
                assert(w.subrange(i as int, i + 4)[2] == w[i + 2]);
                assert(w.subrange(i as int, i + 4)[3] == w[i + 3]);
            }
        }
        i = i + 1;
    }
    assert forall|j: int| !sig_at(w, j, sig@) by {}
    false
}

/// Looks for a 6-byte window that starts with `5d 00 00`.
pub fn scan_relaxed(data: &[u8]) -> (r: bool)
    ensures
        r == relaxed_signal(data@),
{
    let n = data.len();
    if n < 6 {
        assert forall|i: int| !relaxed_at(data@, i) by {}
        return false;
    }
    let mut i: usize = 0;
    while i <= n - 6
        invariant
            n == data@.len(),
            n >= 6,
            i <= n - 5,
            forall|j: int| 0 <= j < i ==> !relaxed_at(data@, j),
        decreases n - i,
    {
        if data[i] == 0x5d && data[i + 1] == 0x00 && data[i + 2] == 0x00 {
            assert(relaxed_at(data@, i as int));
            return true;
        }
        i = i + 1;
    }
    assert forall|j: int| !relaxed_at(data@, j) by {}
    false
}

/// Evaluates the three signals on a buffer that passes the container magic test.
pub fn lzma_signals(data: &[u8]) -> (r: Option<LzmaSignals>)
    ensures
        r is Some <==> is_container(data@),
        r matches Some(s) ==> s.header_scan == header_signal(data@) && s.superblock_field
            == superblock_signal(data@) && s.relaxed_scan == relaxed_signal(data@),
{
    let n = data.len();
    if n <= MIN_CLASSIFIED_LEN {
        return None;
    }
    let le = data[0] == 0x68 && data[1] == 0x73 && data[2] == 0x71 && data[3] == 0x73;
    let be = data[0] == 0x73 && data[1] == 0x71 && data[2] == 0x73 && data[3] == 0x68;
    proof {
        let t = data@.take(4);
        assert(t.len() == 4);
        assert(t[0] == data@[0] && t[1] == data@[1] && t[2] == data@[2] && t[3] == data@[3]);
        assert(le <==> t =~= magic_le());
        assert(be <==> t =~= magic_be());
    }
    if !le && !be {
        return None;
    }
    let header: [u8; 4] = [0x5d, 0x00, 0x00, 0x80];
    proof {
        assert(header@ =~= lzma_header());
        assert(data@.take(n as int) =~= data@);
    }
    let header_scan = scan_signature(data, n, header.as_slice());
    let superblock_field = if n > COMPRESSION_ID_OFFSET {
        let at = COMPRESSION_ID_OFFSET;
        let in_place = at + 3 < n && data[at] == 0x5d && data[at + 1] == 0x00 && data[at + 2]
            == 0x00 && data[at + 3] == 0x80;
        proof {
            if at + 3 < n {
                let w = data@.subrange(at as int, at + 4);
                assert(w[0] == data@[at as int] && w[1] == data@[at + 1] && w[2] == data@[at + 2]
                    && w[3] == data@[at + 3]);
                assert(in_place <==> w =~= lzma_header());
            }
        }
        data[at] == LZMA_COMPRESSION_ID || in_place
    } else {
        false
    };
    let relaxed_scan = scan_relaxed(data);
    Some(LzmaSignals { header_scan, superblock_field, relaxed_scan })
}

/// Classifies a buffer: `None` when it is not a SquashFS container, otherwise whether it
/// looks LZMA-compressed.
pub fn classify(data: &[u8]) -> (r: Option<bool>)
    ensures
        r == classification(data@),
{
    match lzma_signals(data) {
        Some(s) => Some(s.any()),
        None => None,
    }
}

/// Settles the LZMA question for a file: a verdict from `classify` stands; without one, the
/// first 1024 bytes of `head` are scanned for either LZMA header. An unreadable file is
/// passed as an empty `head` and so yields `false`.
pub fn check_lzma_compression(verdict: Option<bool>, head: &[u8]) -> (r: bool)
    ensures
        r == match verdict {
            Some(v) => v,
            None => head_verdict(head@),
        },
{
    match verdict {
        Some(v) => v,
        None => {
            let end = if head.len() > HEAD_SCAN_LEN {
                HEAD_SCAN_LEN
            } else {
                head.len()
            };
            let strict: [u8; 4] = [0x5d, 0x00, 0x00, 0x80];
            let loose: [u8; 4] = [0x5d, 0x00, 0x00, 0x00];
            proof {
                assert(strict@ =~= lzma_header());
                assert(loose@ =~= loose_lzma_header());
                assert(head@.take(head@.len() as int) =~= head@);
            }
            scan_signature(head, end, strict.as_slice()) || scan_signature(
                head,
                end,
                loose.as_slice(),
            )
        },
    }
}

/// A 28-byte buffer that starts with `hsqs` and holds the LZMA header anywhere is classified
/// as LZMA-compressed.
pub proof fn lemma_le_container_with_header_is_lzma(data: Seq<u8>)
    requires
        data.len() == 28,
        data.take(4) == magic_le(),
        has_sig(data, lzma_header()),
    ensures
        classification(data) == Some(true),
{
}

/// A buffer that does not start with either container magic is never classified, whatever
/// else it holds.
pub proof fn lemma_wrong_magic_is_unclassified(data: Seq<u8>)
    requires
        data.len() < 4 || (data.take(4) != magic_le() && data.take(4) != magic_be()),
    ensures
        classification(data) == None::<bool>,
{
}

/// A container in which none of the three signals fires is classified as not LZMA.
pub proof fn lemma_no_signal_is_not_lzma(data: Seq<u8>)
    requires
        is_container(data),
        !header_signal(data),
        !superblock_signal(data),
        !relaxed_signal(data),
    ensures
        classification(data) == Some(false),
{
}

} // verus!
