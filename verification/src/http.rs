//! Plain HTTP downloads: reading the response headers and gathering the body.
use vstd::prelude::*;

use crate::number::{parse_u64, parsed_u64};
use crate::paths::{choose_name, chosen_name, opt_view};

verus! {

/// A 2xx status code.
pub open spec fn is_success_status(code: u16) -> bool {
    200 <= code < 300
}

/// Is `code` a success status (200 to 299)?
pub fn status_is_success(code: u16) -> (b: bool)
    ensures
        b == is_success_status(code),
{
    200 <= code && code < 300
}

/// The length a `Content-Length` header announces, when it is a number.
pub open spec fn announced_length(header: Option<Seq<char>>) -> Option<u64> {
    match header {
        Some(text) => parsed_u64(text),
        None => None,
    }
}

/// Reads the `Content-Length` header (already turned into text).
pub fn content_length(header: Option<&str>) -> (r: Option<u64>)
    ensures
        r == announced_length(opt_view(header)),
{
    match header {
        Some(text) => parse_u64(text),
        None => None,
    }
}

/// The label shown for the content type: the header, or `unknown`.
pub open spec fn content_type_label_spec(header: Option<Seq<char>>) -> Seq<char> {
    match header {
        Some(text) => text,
        None => "unknown"@,
    }
}

/// The content type to show.
pub fn content_type_label(header: Option<&str>) -> (r: String)
    ensures
        r@ == content_type_label_spec(opt_view(header)),
{
    match header {
        Some(text) => String::from_str(text),
        None => String::from_str("unknown"),
    }
}

/// How many bytes to ask for per read: a 99th of the announced length, but
/// never under 1024; 1024 when the length is unknown.
pub open spec fn chunk_size_spec(length: Option<u64>) -> u64 {
    let c = match length {
        Some(len) => len / 99,
        None => 1024,
    };
    if c > 1024 {
        c
    } else {
        1024
    }
}

/// The read size for a download of the given length.
pub fn chunk_size(length: Option<u64>) -> (r: u64)
    ensures
        r == chunk_size_spec(length),
        r >= 1024,
{
    let c = match length {
        Some(len) => len / 99,
        None => 1024,
    };
    if c > 1024 {
        c
    } else {
        1024
    }
}

/// What a successful response tells about the download to come.
#[derive(Debug, PartialEq, Eq)]
pub struct DownloadPlan {
    /// The announced length, when the header holds a number.
    pub length: Option<u64>,
    /// The content type to show.
    pub content_type: String,
    /// Where the body is saved.
    pub file_name: String,
    /// How many bytes to ask for per read.
    pub chunk_size: u64,
}

/// Settles, from a successful response's headers, what `download` shows and
/// where and how it saves the body.
pub fn plan_download(
    target: &str,
    output_file: Option<&str>,
    length_header: Option<&str>,
    type_header: Option<&str>,
) -> (plan: DownloadPlan)
    ensures
        plan.length == announced_length(opt_view(length_header)),
        plan.content_type@ == content_type_label_spec(opt_view(type_header)),
        plan.file_name@ == chosen_name(target@, opt_view(output_file)),
        plan.chunk_size == chunk_size_spec(plan.length),
{
    let length = content_length(length_header);
    DownloadPlan {
        length,
        content_type: content_type_label(type_header),
        file_name: choose_name(target, output_file),
        chunk_size: chunk_size(length),
    }
}

/// What to do after one read of the body.
#[derive(Debug, PartialEq, Eq)]
pub enum ChunkStep {
    /// Bytes arrived: advance the progress bar by this many.
    Received(u64),
    /// The body has ended.
    Finished,
}

/// The body of a download, gathered chunk by chunk.
pub struct ChunkBuffer {
    data: Vec<u8>,
}

impl ChunkBuffer {
    /// The bytes gathered so far.
    pub closed spec fn bytes(&self) -> Seq<u8> {
        self.data@
    }

    /// Nothing gathered yet.
    pub fn new() -> (r: Self)
        ensures
            r.bytes() == Seq::<u8>::empty(),
    {
        ChunkBuffer { data: Vec::new() }
    }

    /// How many bytes have been gathered.
    pub fn len(&self) -> (n: usize)
        ensures
            n == self.bytes().len(),
    {
        self.data.len()
    }

    /// Takes one read's result: `count` bytes at the front of `buffer`.  A read
    /// of nothing ends the body; otherwise the bytes are kept in order.
    pub fn on_read(&mut self, buffer: &[u8], count: usize) -> (step: ChunkStep)
        requires
            count <= buffer@.len(),
        ensures
            count == 0 ==> step is Finished && final(self).bytes() == old(self).bytes(),
            count > 0 ==> step == ChunkStep::Received(count as u64) && final(self).bytes() == old(
                self,
            ).bytes() + buffer@.subrange(0, count as int),
    {
        if count == 0 {
            return ChunkStep::Finished;
        }
        let ghost start = self.data@;
        let mut i: usize = 0;
        while i < count
            invariant
                count <= buffer@.len(),
                i <= count,
                self.data@ == start + buffer@.subrange(0, i as int),
            decreases count - i,
        {
            self.data.push(buffer[i]);
            i = i + 1;
            assert(self.data@ =~= start + buffer@.subrange(0, i as int));
        }
        ChunkStep::Received(count as u64)
    }

    /// The gathered body.
    pub fn into_bytes(self) -> (v: Vec<u8>)
        ensures
            v@ == self.bytes(),
    {
        self.data
    }
}

/// Which progress indicator a download shows.
#[derive(Debug, PartialEq, Eq)]
pub enum BarKind {
    /// Nothing is drawn (quiet mode).
    Hidden,
    /// A bar over this many bytes.
    Sized(u64),
    /// A spinner: the length is unknown.
    Spinner,
}

/// The progress indicator and whether it is styled as a byte counter.
#[derive(Debug, PartialEq, Eq)]
pub struct BarPlan {
    pub kind: BarKind,
    /// Byte-counter bar style (length known) rather than the plain spinner style.
    pub byte_style: bool,
}

/// The indicator `create_progress_bar` builds: hidden when quiet, a bar when
/// the length is known, a spinner otherwise; the byte style goes with a known
/// length even when hidden.
pub open spec fn bar_plan_spec(quiet: bool, length: Option<u64>, plan: BarPlan) -> bool {
    &&& plan.byte_style == length.is_some()
    &&& if quiet {
        plan.kind is Hidden
    } else {
        match length {
            Some(len) => plan.kind == BarKind::Sized(len),
            None => plan.kind is Spinner,
        }
    }
}

/// Chooses the progress indicator for a download.
pub fn progress_bar_plan(quiet: bool, length: Option<u64>) -> (plan: BarPlan)
    ensures
        bar_plan_spec(quiet, length, plan),
{
    let kind = if quiet {
        BarKind::Hidden
    } else {
        match length {
            Some(len) => BarKind::Sized(len),
            None => BarKind::Spinner,
        }
    };
    BarPlan { kind, byte_style: length.is_some() }
}

/// Success is exactly the 2xx range.
pub proof fn law_success_is_2xx(code: u16)
    ensures
        is_success_status(code) <==> 200 <= code <= 299,
{
}

/// The read size is a 99th of a length of at least 99 KiB, and 1024 bytes
/// for a smaller or unknown length; it never drops below 1024.
pub proof fn law_chunk_size(len: u64)
    ensures
        chunk_size_spec(None) == 1024,
        len >= 99 * 1025 ==> chunk_size_spec(Some(len)) == len / 99,
        len < 99 * 1025 ==> chunk_size_spec(Some(len)) == 1024,
        chunk_size_spec(Some(len)) >= 1024,
        chunk_size_spec(Some(len)) <= if len / 99 > 1024 {
            len / 99
        } else {
            1024
        },
{
}

/// A header that is a decimal number gives that length; a missing header, or
/// one that is not a number, gives none; the content type falls back to
/// `unknown` only when the header is missing.
pub proof fn law_headers(text: Seq<char>)
    ensures
        announced_length(None) is None,
        announced_length(Some(text)) == crate::number::parsed_u64(text),
        content_type_label_spec(Some(text)) == text,
        content_type_label_spec(None) == "unknown"@,
{
}

/// The progress indicator: nothing drawn when quiet, a bar over the length
/// when it is known, a spinner otherwise; the byte style exactly when the
/// length is known.
pub proof fn law_bar_plan(quiet: bool, length: Option<u64>, plan: BarPlan)
    requires
        bar_plan_spec(quiet, length, plan),
    ensures
        quiet ==> plan.kind is Hidden,
        !quiet && length is Some ==> plan.kind == BarKind::Sized(length->0),
        !quiet && length is None ==> plan.kind is Spinner,
        plan.byte_style <==> length is Some,
{
}

} // verus!
