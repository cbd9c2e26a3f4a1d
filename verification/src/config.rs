//! The guest configuration: the files to put into the guest's root and the
//! host name to give it.
//!
//! The configuration arrives already parsed. Each file comes as a path and a
//! base64 payload; the payloads are decoded here, all of them before the
//! first step of the bootstrap is taken, so that a guest whose configuration
//! cannot be used is not started at all.

use base64::engine::general_purpose::STANDARD;
use base64::DecodeError;
use base64::Engine;
use vstd::prelude::*;

use crate::error::{Cause, CauseView, DecodeFault, InitError, InitErrorView, OpKind};
use crate::text::opt_text;

verus! {

/// A file as the configuration names it: where it goes, and its contents in
/// base64.
#[derive(Clone, Debug, PartialEq, Eq)]
pub struct FileEntry {
    pub guest_path: String,
    pub raw_value: String,
}

/// The mathematical model of [`FileEntry`].
pub struct FileEntryView {
    pub guest_path: Seq<char>,
    pub raw_value: Seq<char>,
}

impl View for FileEntry {
    type V = FileEntryView;

    open spec fn view(&self) -> FileEntryView {
        FileEntryView { guest_path: self.guest_path@, raw_value: self.raw_value@ }
    }
}

/// The configuration of a guest.
#[derive(Clone, Debug, PartialEq, Eq)]
pub struct GuestConfig {
    /// The files to write, in the order in which they are written.
    pub files: Vec<FileEntry>,
    /// The host name, if the configuration names one.
    pub hostname: Option<String>,
}

/// The mathematical model of [`GuestConfig`].
pub struct GuestConfigView {
    pub files: Seq<FileEntryView>,
    pub hostname: Option<Seq<char>>,
}

impl View for GuestConfig {
    type V = GuestConfigView;

    open spec fn view(&self) -> GuestConfigView {
        GuestConfigView {
            files: entries_view(self.files@),
            hostname: opt_text(self.hostname),
        }
    }
}

/// A file of the guest: where it goes and what it holds.
#[derive(Clone, Debug, PartialEq, Eq)]
pub struct GuestFile {
    pub path: String,
    pub contents: Vec<u8>,
}

/// The mathematical model of [`GuestFile`].
pub struct GuestFileView {
    pub path: Seq<char>,
    pub contents: Seq<u8>,
}

impl View for GuestFile {
    type V = GuestFileView;

    open spec fn view(&self) -> GuestFileView {
        GuestFileView { path: self.path@, contents: self.contents@ }
    }
}

/// The views of a sequence of files, in the same order.
pub open spec fn files_view(files: Seq<GuestFile>) -> Seq<GuestFileView> {
    Seq::new(files.len(), |i: int| files[i]@)
}

/// The views of a sequence of entries, in the same order.
pub open spec fn entries_view(entries: Seq<FileEntry>) -> Seq<FileEntryView> {
    Seq::new(entries.len(), |i: int| entries[i]@)
}

/// The outcome of decoding with the bytes as a sequence.
pub open spec fn decoded_view(decoded: Result<Vec<u8>, DecodeFault>) -> Result<
    Seq<u8>,
    DecodeFault,
> {
    match decoded {
        Ok(bytes) => Ok(bytes@),
        Err(fault) => Err(fault),
    }
}

/// What the standard base64 alphabet with canonical padding decodes `text`
/// to: the bytes, or the reason why `text` is no encoding.
pub uninterp spec fn base64_decoded(text: Seq<char>) -> Result<Seq<u8>, DecodeFault>;

/// Decodes `text` with `base64::engine::general_purpose::STANDARD`
/// (`Engine::decode`), and tells the variants of its error apart.
///
/// Trusted: the result is the one that [`base64_decoded`] names. The decoder
/// is a function of its input alone.
#[verifier::external_body]
fn decode_base64(text: &str) -> (r: Result<Vec<u8>, DecodeFault>)
    ensures
        decoded_view(r) == base64_decoded(text@),
{
    match STANDARD.decode(text) {
        Ok(bytes) => Ok(bytes),
        Err(DecodeError::InvalidByte(offset, byte)) => Err(
            DecodeFault::InvalidByte { offset, byte },
        ),
        Err(DecodeError::InvalidLength(length)) => Err(DecodeFault::InvalidLength { length }),
        Err(DecodeError::InvalidLastSymbol(offset, byte)) => Err(
            DecodeFault::InvalidLastSymbol { offset, byte },
        ),
        Err(DecodeError::InvalidPadding) => Err(DecodeFault::InvalidPadding),
    }
}

/// The error for a file whose payload was rejected.
pub open spec fn decode_failure(path: Seq<char>, fault: DecodeFault) -> InitErrorView {
    InitErrorView {
        kind: OpKind::DecodePayload,
        subject: path,
        origin: None,
        cause: CauseView::Decode(fault),
    }
}

/// The file that a decoded payload makes, or the error that a rejected one
/// makes.
pub open spec fn materialized(path: Seq<char>, decoded: Result<Seq<u8>, DecodeFault>) -> Result<
    GuestFileView,
    InitErrorView,
> {
    match decoded {
        Ok(contents) => Ok(GuestFileView { path, contents }),
        Err(fault) => Err(decode_failure(path, fault)),
    }
}

/// The view of a file or of the error in its place.
pub open spec fn file_view(r: Result<GuestFile, InitError>) -> Result<
    GuestFileView,
    InitErrorView,
> {
    match r {
        Ok(file) => Ok(file@),
        Err(e) => Err(e@),
    }
}

/// Turns the outcome of decoding a payload into the file to write at `path`.
///
/// The contents are the decoded bytes, unchanged. A rejected payload gives
/// an error of kind [`OpKind::DecodePayload`] that names the path and the
/// fault.
pub fn materialize(path: String, decoded: Result<Vec<u8>, DecodeFault>) -> (r: Result<
    GuestFile,
    InitError,
>)
    ensures
        file_view(r) == materialized(path@, decoded_view(decoded)),
{
    match decoded {
        Ok(contents) => Ok(GuestFile { path, contents }),
        Err(fault) => Err(
            InitError {
                kind: OpKind::DecodePayload,
                subject: path,
                origin: None,
                cause: Cause::Decode(fault),
            },
        ),
    }
}

/// True if the payload of `entry` is a base64 encoding.
pub open spec fn decodes(entry: FileEntryView) -> bool {
    base64_decoded(entry.raw_value) is Ok
}

/// The file that `entry` stands for, if its payload decodes.
pub open spec fn decoded_file(entry: FileEntryView) -> GuestFileView {
    GuestFileView { path: entry.guest_path, contents: base64_decoded(entry.raw_value)->Ok_0 }
}

/// The files that `entries` stand for, in the same order.
pub open spec fn decoded_files(entries: Seq<FileEntryView>) -> Seq<GuestFileView> {
    Seq::new(entries.len(), |i: int| decoded_file(entries[i]))
}

/// True if `i` is the first entry whose payload is rejected.
pub open spec fn first_rejected(entries: Seq<FileEntryView>, i: int) -> bool {
    &&& 0 <= i < entries.len()
    &&& !decodes(entries[i])
    &&& forall|j: int| 0 <= j < i ==> decodes(#[trigger] entries[j])
}

/// What decoding every payload of `entries` comes to.
///
/// It succeeds if and only if every payload is a base64 encoding, with one
/// file for each entry, in the same order, at the same path, holding the
/// decoded bytes. Otherwise the error is the one of the first entry whose
/// payload is rejected.
pub open spec fn decoding(
    entries: Seq<FileEntryView>,
    r: Result<Seq<GuestFileView>, InitErrorView>,
) -> bool {
    match r {
        Ok(files) => {
            &&& forall|i: int| 0 <= i < entries.len() ==> decodes(#[trigger] entries[i])
            &&& files == decoded_files(entries)
        },
        Err(e) => exists|i: int|
            first_rejected(entries, i) && e == decode_failure(
                (#[trigger] entries[i]).guest_path,
                base64_decoded(entries[i].raw_value)->Err_0,
            ),
    }
}

/// The view of the files or of the error in their place.
pub open spec fn files_result_view(r: Result<Vec<GuestFile>, InitError>) -> Result<
    Seq<GuestFileView>,
    InitErrorView,
> {
    match r {
        Ok(files) => Ok(files_view(files@)),
        Err(e) => Err(e@),
    }
}

/// Decodes the payload of every entry, in order, and stops at the first one
/// that is rejected.
pub fn decode_files(entries: Vec<FileEntry>) -> (r: Result<Vec<GuestFile>, InitError>)
    ensures
        decoding(entries_view(entries@), files_result_view(r)),
{
    let ghost wanted = entries_view(entries@);
    let mut files: Vec<GuestFile> = Vec::new();
    for entry in it: entries
        invariant
            entries_view(it.seq()) == wanted,
            files@.len() == it.index(),
            forall|j: int| 0 <= j < it.index() ==> decodes(#[trigger] wanted[j]),
            forall|j: int|
                0 <= j < it.index() ==> (#[trigger] files@[j])@ == decoded_file(wanted[j]),
    {
        assert(entry@ == wanted[it.index()]);
        let FileEntry { guest_path, raw_value } = entry;
        let decoded = decode_base64(raw_value.as_str());
        match materialize(guest_path, decoded) {
            Ok(file) => {
                files.push(file);
            },
            Err(e) => {
                assert(first_rejected(wanted, it.index()));
                return Err(e);
            },
        }
    }
    assert(files_view(files@) =~= decoded_files(wanted));
    Ok(files)
}

impl GuestConfig {
    /// The host name that the guest gets: the configured one, or the default
    /// where the configuration names none.
    pub fn hostname(&self) -> (name: &str)
        ensures
            name@ == self@.effective_hostname(),
    {
        match &self.hostname {
            Some(name) => name.as_str(),
            None => DEFAULT_HOSTNAME,
        }
    }
}

impl GuestConfigView {
    /// The host name that the guest gets: the configured one, or the default
    /// where the configuration names none.
    pub open spec fn effective_hostname(self) -> Seq<char> {
        match self.hostname {
            Some(name) => name,
            None => DEFAULT_HOSTNAME@,
        }
    }
}

/// The host name of a guest whose configuration names none.
pub const DEFAULT_HOSTNAME: &'static str = "hostname-1";

} // verus!
