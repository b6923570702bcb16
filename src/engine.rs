//! The engine session: lifecycle, dispatch between the wide and the narrow
//! entry points, and what becomes of each native reply.
//!
//! The session never calls the engine itself. Each operation is split at the
//! native call: a first method decides what to hand the engine, and a second
//! one takes what the engine returned and decides what follows.
use vstd::prelude::*;
use vstd::string::StringExecFns;

use crate::codec::{
    euc_kr_decode_of, euc_kr_to_string, shift_jis_nul_terminated, shift_jis_of, utf16_decode,
    utf16_nul_terminated, utf16_of, utf16_to_string, MAX_TEXT_CHARS,
};
use crate::error::{EzTransError, TransErr};
use crate::text::{escape_seq, lemma_escape_len, needs_escape, unescape_seq};

verus! {

/// The installation folder used when none is given.
pub const DEFAULT_PATH: &'static str = "C:/Program Files (x86)/ChangShinSoft/ezTrans XP";

/// The initialization token used when none is given.
pub const DEFAULT_INIT: &'static str = "CSUSER123455";

/// What the initialize entry point returns on success.
pub const INIT_OK: i32 = 1;

/// What the terminate entry point returns on success.
pub const TERMINATE_OK: i32 = 0;

/// Where a session stands in its lifecycle.
#[derive(Debug, Clone, Copy, PartialEq, Eq, Structural)]
pub enum Phase {
    Constructed,
    Initialized,
    Terminated,
}

/// One session with the engine.
pub struct EzTransLib {
    /// Whether the engine offers the wide-character translate entry point.
    pub ehnd_support: bool,
    phase: Phase,
}

/// The two strings handed to the initialize entry point, free of NUL.
pub struct InitArgs {
    pub init: String,
    pub home: String,
}

/// The buffer handed to a translate entry point, zero-terminated.
pub enum NativeRequest {
    /// For the wide entry point: UTF-16 code units.
    Wide(Vec<u16>),
    /// For the narrow entry point: Shift_JIS bytes.
    Narrow(Vec<u8>),
}

/// A translation waiting for the engine's reply.
pub struct Pending {
    pub request: NativeRequest,
    /// Whether the text was escaped, so that the reply must be unescaped.
    pub escaped: bool,
}

/// What a translate entry point returned: a null pointer, or the contents of
/// the engine's buffer up to its terminator.
pub enum NativeReply {
    Null,
    Wide(Vec<u16>),
    Narrow(Vec<u8>),
}

/// A reply read back: the translation, and whether the engine's buffer must
/// now be released.
pub struct Received {
    pub result: Result<String, EzTransError>,
    pub release: bool,
}

/// The message of a UTF-16 decoding failure.
pub const UTF16_ERROR: &'static str = "invalid utf-16: lone surrogate found";

/// The given text, or `default` when none is given.
pub open spec fn text_or(o: Option<&str>, default: Seq<char>) -> Seq<char> {
    match o {
        Some(s) => s@,
        None => default,
    }
}

/// The engine module inside an installation folder.
pub open spec fn dll_path_of(folder: Option<&str>) -> Seq<char> {
    text_or(folder, DEFAULT_PATH@) + "/J2KEngine.dll"@
}

/// The engine's data folder inside an installation folder.
pub open spec fn home_dir_of(folder: Option<&str>) -> Seq<char> {
    text_or(folder, DEFAULT_PATH@) + "/Dat"@
}

pub open spec fn has_nul(s: Seq<char>) -> bool {
    exists|i: int| 0 <= i < s.len() && s[i] == '\0'
}

/// The position of the first NUL of `s`, when it has one.
pub open spec fn first_nul(s: Seq<char>, p: int) -> bool {
    0 <= p < s.len() && s[p] == '\0' && forall|j: int| 0 <= j < p ==> s[j] != '\0'
}

pub open spec fn any_needs_escape(s: Seq<char>) -> bool {
    exists|i: int| 0 <= i < s.len() && needs_escape(s[i])
}

/// The buffer a session hands the engine for `t`.
pub open spec fn request_for(wide: bool, t: Seq<char>, r: NativeRequest) -> bool {
    if wide {
        r matches NativeRequest::Wide(w) && w@ == utf16_of(t).push(0)
    } else {
        r matches NativeRequest::Narrow(n) && n@ == shift_jis_of(t).push(0)
    }
}

/// A translation as the caller sees it: unescaped when it was escaped.
pub open spec fn restored(t: Seq<char>, escaped: bool) -> Seq<char> {
    if escaped {
        unescape_seq(t)
    } else {
        t
    }
}

/// What a session makes of the engine's reply.
pub open spec fn reply_outcome(
    reply: NativeReply,
    escaped: bool,
    r: Result<String, EzTransError>,
) -> bool {
    match reply {
        NativeReply::Null => r == Err::<String, EzTransError>(
            EzTransError::TranslationError(TransErr::NullPointer),
        ),
        NativeReply::Wide(u) => match utf16_decode(u@) {
            Some(t) => r matches Ok(s) && s@ == restored(t, escaped),
            None => r matches Err(EzTransError::Utf16Error(m)) && m@ == UTF16_ERROR@,
        },
        NativeReply::Narrow(b) => if euc_kr_decode_of(b@).1 {
            r == Err::<String, EzTransError>(
                EzTransError::TranslationError(TransErr::EucKrDecodeFailed),
            )
        } else {
            r matches Ok(s) && s@ == restored(euc_kr_decode_of(b@).0, escaped)
        },
    }
}

/// A narrow reply short enough for the legacy decoder.
pub open spec fn reply_fits(reply: NativeReply) -> bool {
    match reply {
        NativeReply::Narrow(b) => b@.len() <= MAX_TEXT_CHARS,
        _ => true,
    }
}

/// The position of the first NUL among `v`, if any.
fn find_nul(v: &Vec<char>) -> (r: Option<usize>)
    ensures
        r is None <==> !has_nul(v@),
        r matches Some(p) ==> first_nul(v@, p as int),
{
    let mut i: usize = 0;
    while i < v.len()
        invariant
            i <= v.len(),
            forall|j: int| 0 <= j < i ==> v@[j] != '\0',
        decreases v.len() - i,
    {
        if v[i] == '\0' {
            return Some(i);
        }
        i = i + 1;
    }
    None
}

/// `base` followed by `suffix`, as an owned string.
fn joined(base: &str, suffix: &str) -> (r: String)
    ensures
        r@ == base@ + suffix@,
{
    String::from_str(base).concat(suffix)
}

impl EzTransLib {
    pub closed spec fn phase(&self) -> Phase {
        self.phase
    }

    /// Whether translations go through the wide entry point.
    pub closed spec fn wide(&self) -> bool {
        self.ehnd_support
    }

    /// The engine module inside `folder_path`, or inside the default
    /// installation folder.
    pub fn dll_path(folder_path: Option<&str>) -> (r: String)
        ensures
            r@ == dll_path_of(folder_path),
    {
        match folder_path {
            Some(p) => joined(p, "/J2KEngine.dll"),
            None => joined(DEFAULT_PATH, "/J2KEngine.dll"),
        }
    }

    /// Opens a session once the module has been loaded, or fails with the
    /// loader's error. `wide_translate` tells whether the module offers the
    /// wide-character translate entry point.
    pub fn new(loaded: Result<(), EzTransError>, wide_translate: bool) -> (r: Result<
        EzTransLib,
        EzTransError,
    >)
        ensures
            loaded is Ok ==> (r matches Ok(lib) && lib.wide() == wide_translate
                && lib.phase() == Phase::Constructed),
            loaded matches Err(e) ==> r == Err::<EzTransLib, EzTransError>(e),
    {
        match loaded {
            Ok(()) => Ok(EzTransLib { ehnd_support: wide_translate, phase: Phase::Constructed }),
            Err(e) => Err(e),
        }
    }

    /// The strings for the initialize entry point: the token (by default
    /// `CSUSER123455`) and the data folder `Dat` inside the installation
    /// folder. A string holding a NUL is refused, with its position.
    pub fn initialize(&self, init_str: Option<&str>, folder_dir: Option<&str>) -> (r: Result<
        InitArgs,
        EzTransError,
    >)
        ensures
            has_nul(text_or(init_str, DEFAULT_INIT@)) ==> (r matches Err(
                EzTransError::InvalidString(p),
            ) && first_nul(text_or(init_str, DEFAULT_INIT@), p as int)),
            !has_nul(text_or(init_str, DEFAULT_INIT@)) && has_nul(home_dir_of(folder_dir)) ==> (
            r matches Err(EzTransError::InvalidString(p)) && first_nul(
                home_dir_of(folder_dir),
                p as int,
            )),
            !has_nul(text_or(init_str, DEFAULT_INIT@)) && !has_nul(home_dir_of(folder_dir)) ==> (
            r matches Ok(a) && a.init@ == text_or(init_str, DEFAULT_INIT@) && a.home@
                == home_dir_of(folder_dir)),
    {
        let init = match init_str {
            Some(s) => String::from_str(s),
            None => String::from_str(DEFAULT_INIT),
        };
        let home = match folder_dir {
            Some(d) => joined(d, "/Dat"),
            None => joined(DEFAULT_PATH, "/Dat"),
        };
        if let Some(p) = find_nul(&crate::text::chars_of(init.as_str())) {
            return Err(EzTransError::InvalidString(p));
        }
        if let Some(p) = find_nul(&crate::text::chars_of(home.as_str())) {
            return Err(EzTransError::InvalidString(p));
        }
        Ok(InitArgs { init, home })
    }

    /// Takes what the initialize entry point returned, or why it could not
    /// be called. Only `INIT_OK` initializes the session.
    pub fn record_initialize(&mut self, ret: Result<i32, EzTransError>) -> (r: Result<
        (),
        EzTransError,
    >)
        ensures
            final(self).wide() == old(self).wide(),
            ret == Ok::<i32, EzTransError>(INIT_OK) ==> r is Ok && final(self).phase()
                == Phase::Initialized,
            ret matches Ok(code) && code != INIT_OK ==> r == Err::<(), EzTransError>(
                EzTransError::InitializationError,
            ) && final(self).phase() == old(self).phase(),
            ret matches Err(e) ==> r == Err::<(), EzTransError>(e) && final(self).phase() == old(
                self,
            ).phase(),
    {
        match ret {
            Ok(code) => {
                if code == INIT_OK {
                    self.phase = Phase::Initialized;
                    Ok(())
                } else {
                    Err(EzTransError::InitializationError)
                }
            },
            Err(e) => Err(e),
        }
    }

    /// The zero-terminated UTF-16 buffer for the wide translate entry point.
    pub fn translate_mmntw(&self, input: &str) -> (r: Vec<u16>)
        ensures
            r@ == utf16_of(input@).push(0),
    {
        utf16_nul_terminated(input)
    }

    /// The zero-terminated Shift_JIS buffer for the narrow translate entry
    /// point.
    pub fn translate_mmnt(&self, input: &str) -> (r: Vec<u8>)
        requires
            input@.len() <= MAX_TEXT_CHARS,
        ensures
            r@ == shift_jis_of(input@).push(0),
    {
        shift_jis_nul_terminated(input)
    }

    /// Asks for a translation of `input` as it is: through the wide entry
    /// point where the engine has it, else through the narrow one. Before a
    /// successful initialization, and after termination, nothing is asked.
    pub fn translate(&self, input: &str) -> (r: Result<Pending, EzTransError>)
        requires
            self.wide() || input@.len() <= MAX_TEXT_CHARS,
        ensures
            self.phase() != Phase::Initialized ==> r == Err::<Pending, EzTransError>(
                EzTransError::NotInitialized,
            ),
            self.phase() == Phase::Initialized ==> (r matches Ok(p) && !p.escaped && request_for(
                self.wide(),
                input@,
                p.request,
            )),
    {
        if self.phase != Phase::Initialized {
            return Err(EzTransError::NotInitialized);
        }
        let request = if self.ehnd_support {
            NativeRequest::Wide(self.translate_mmntw(input))
        } else {
            NativeRequest::Narrow(self.translate_mmnt(input))
        };
        Ok(Pending { request, escaped: false })
    }

    /// Asks for a translation of `input`, escaped first when it holds a
    /// character the engine mishandles; the reply is then unescaped.
    pub fn translate_and_encode(&self, input: &str) -> (r: Result<Pending, EzTransError>)
        requires
            self.wide() || input@.len() <= MAX_TEXT_CHARS / 6,
        ensures
            self.phase() != Phase::Initialized ==> r == Err::<Pending, EzTransError>(
                EzTransError::NotInitialized,
            ),
            self.phase() == Phase::Initialized ==> (r matches Ok(p) && p.escaped
                == any_needs_escape(input@) && request_for(
                self.wide(),
                if p.escaped {
                    escape_seq(input@)
                } else {
                    input@
                },
                p.request,
            )),
    {
        let v = crate::text::chars_of(input);
        let mut needs = false;
        let mut i: usize = 0;
        while i < v.len()
            invariant
                v@ == input@,
                i <= v.len(),
                needs == exists|j: int| 0 <= j < i && needs_escape(#[trigger] v@[j]),
            decreases v.len() - i,
        {
            let c = v[i];
            if c == '@' || c == '\0' || self.is_hangul_range(c as u32) || self.needs_encoding(c) {
                needs = true;
            }
            i = i + 1;
        }
        if needs {
            let encoded = self.hangul_encode(input);
            proof {
                lemma_escape_len(input@);
            }
            match self.translate(encoded.as_str()) {
                Ok(p) => Ok(Pending { request: p.request, escaped: true }),
                Err(e) => Err(e),
            }
        } else {
            self.translate(input)
        }
    }

    /// Reads the engine's reply to `pending`. A null pointer is a
    /// `NullPointer` error with nothing to release; any other reply is
    /// decoded, and its buffer must be released whatever came of decoding.
    pub fn receive(&self, pending: &Pending, reply: NativeReply) -> (r: Received)
        requires
            reply_fits(reply),
        ensures
            r.release == !(reply is Null),
            reply_outcome(reply, pending.escaped, r.result),
    {
        let decoded = match reply {
            NativeReply::Null => {
                return Received {
                    result: Err(EzTransError::TranslationError(TransErr::NullPointer)),
                    release: false,
                };
            },
            NativeReply::Wide(u) => match utf16_to_string(&u) {
                Some(t) => t,
                None => {
                    return Received {
                        result: Err(EzTransError::Utf16Error(String::from_str(UTF16_ERROR))),
                        release: true,
                    };
                },
            },
            NativeReply::Narrow(b) => match euc_kr_to_string(&b) {
                Some(t) => t,
                None => {
                    return Received {
                        result: Err(EzTransError::TranslationError(TransErr::EucKrDecodeFailed)),
                        release: true,
                    };
                },
            },
        };
        if pending.escaped {
            Received { result: Ok(self.hangul_decode(decoded.as_str())), release: true }
        } else {
            Received { result: Ok(decoded), release: true }
        }
    }

    /// Takes what the terminate entry point returned, or why it could not be
    /// called. Only `TERMINATE_OK` ends the session.
    pub fn terminate(&mut self, ret: Result<i32, EzTransError>) -> (r: Result<(), EzTransError>)
        ensures
            final(self).wide() == old(self).wide(),
            ret == Ok::<i32, EzTransError>(TERMINATE_OK) ==> r is Ok && final(self).phase()
                == Phase::Terminated,
            ret matches Ok(code) && code != TERMINATE_OK ==> r == Err::<(), EzTransError>(
                EzTransError::TerminationError,
            ) && final(self).phase() == old(self).phase(),
            ret matches Err(e) ==> r == Err::<(), EzTransError>(e) && final(self).phase() == old(
                self,
            ).phase(),
    {
        match ret {
            Ok(code) => {
                if code == TERMINATE_OK {
                    self.phase = Phase::Terminated;
                    Ok(())
                } else {
                    Err(EzTransError::TerminationError)
                }
            },
            Err(e) => Err(e),
        }
    }

    /// Whether the terminate entry point is still owed a call when the
    /// session is dropped.
    pub fn needs_teardown(&self) -> (r: bool)
        ensures
            r == (self.phase() != Phase::Terminated),
    {
        self.phase != Phase::Terminated
    }
}

impl Received {
    /// The outcome of a translation once its buffer was released as
    /// `released` says: a decoding error comes first, then a failed release.
    pub fn settle(self, released: Result<(), EzTransError>) -> (r: Result<String, EzTransError>)
        ensures
            self.result is Err ==> r == self.result,
            self.result is Ok && released is Err ==> r == Err::<String, EzTransError>(
                released->Err_0,
            ),
            self.result is Ok && released is Ok ==> r == self.result,
    {
        match self.result {
            Err(e) => Err(e),
            Ok(t) => match released {
                Ok(()) => Ok(t),
                Err(e) => Err(e),
            },
        }
    }
}

} // verus!
