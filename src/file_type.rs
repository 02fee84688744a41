//! File kinds and their one-character tokens, and the per-file content
//! hash field, which holds either a hash or the error that computing it met.
use vstd::prelude::*;
use crate::wire::{field, str_of, DecodeError, Json, Wire};

verus! {

/// The kind of a file.
#[derive(Debug, Clone, Copy, PartialEq, Eq, Structural)]
pub enum FileType {
    BlockSpecial,
    CharSpecial,
    Directory,
    Regular,
    Fifo,
    Symlink,
    Socket,
    SolarisDoor,
}

/// The kind that a token names, if any: exactly one of `b c d f p l s D`.
pub open spec fn kind_of(s: Seq<char>) -> Option<FileType> {
    if s == seq!['b'] {
        Some(FileType::BlockSpecial)
    } else if s == seq!['c'] {
        Some(FileType::CharSpecial)
    } else if s == seq!['d'] {
        Some(FileType::Directory)
    } else if s == seq!['f'] {
        Some(FileType::Regular)
    } else if s == seq!['p'] {
        Some(FileType::Fifo)
    } else if s == seq!['l'] {
        Some(FileType::Symlink)
    } else if s == seq!['s'] {
        Some(FileType::Socket)
    } else if s == seq!['D'] {
        Some(FileType::SolarisDoor)
    } else {
        None
    }
}

impl FileType {
    /// The token character of the kind.
    pub open spec fn token(&self) -> char {
        match self {
            FileType::BlockSpecial => 'b',
            FileType::CharSpecial => 'c',
            FileType::Directory => 'd',
            FileType::Regular => 'f',
            FileType::Fifo => 'p',
            FileType::Symlink => 'l',
            FileType::Socket => 's',
            FileType::SolarisDoor => 'D',
        }
    }

    /// The one-character token of the kind.
    pub fn to_string(&self) -> (r: String)
        ensures
            r@ == seq![self.token()],
    {
        let s = match self {
            FileType::BlockSpecial => "b",
            FileType::CharSpecial => "c",
            FileType::Directory => "d",
            FileType::Regular => "f",
            FileType::Fifo => "p",
            FileType::Symlink => "l",
            FileType::Socket => "s",
            FileType::SolarisDoor => "D",
        };
        proof {
            reveal_strlit("b");
            reveal_strlit("c");
            reveal_strlit("d");
            reveal_strlit("f");
            reveal_strlit("p");
            reveal_strlit("l");
            reveal_strlit("s");
            reveal_strlit("D");
        }
        String::from_str(s)
    }

    /// The kind that a token names. Any other token is an error, never a
    /// fallback kind.
    pub fn from(s: &String) -> (r: Result<FileType, DecodeError>)
        ensures
            match kind_of(s@) {
                Some(t) => r == Ok::<FileType, DecodeError>(t),
                None => r == Err::<FileType, DecodeError>(DecodeError::UnknownFileType),
            },
    {
        let mut i: usize = 0;
        let kinds: [FileType; 8] = [
            FileType::BlockSpecial,
            FileType::CharSpecial,
            FileType::Directory,
            FileType::Regular,
            FileType::Fifo,
            FileType::Symlink,
            FileType::Socket,
            FileType::SolarisDoor,
        ];
        while i < 8
            invariant
                i <= 8,
                kinds@ == seq![
                    FileType::BlockSpecial,
                    FileType::CharSpecial,
                    FileType::Directory,
                    FileType::Regular,
                    FileType::Fifo,
                    FileType::Symlink,
                    FileType::Socket,
                    FileType::SolarisDoor,
                ],
                forall|j: int| 0 <= j < i ==> s@ != seq![(#[trigger] kinds@[j]).token()],
            decreases 8 - i,
        {
            let t = kinds[i];
            if *s == t.to_string() {
                proof { lemma_token_names(t); }
                return Ok(t);
            }
            i = i + 1;
        }
        proof {
            assert(s@ != seq![kinds@[0].token()]);
            assert(s@ != seq![kinds@[1].token()]);
            assert(s@ != seq![kinds@[2].token()]);
            assert(s@ != seq![kinds@[3].token()]);
            assert(s@ != seq![kinds@[4].token()]);
            assert(s@ != seq![kinds@[5].token()]);
            assert(s@ != seq![kinds@[6].token()]);
            assert(s@ != seq![kinds@[7].token()]);
        }
        Err(DecodeError::UnknownFileType)
    }

    /// The value as it is written on the wire.
    pub fn to_json(&self) -> (r: Wire)
        ensures
            r@ == Json::Str(seq![self.token()]),
    {
        Wire::Str(self.to_string())
    }

    /// Reads a kind from its token; any other value fails.
    pub fn from_json(w: &Wire) -> (r: Result<FileType, DecodeError>)
        ensures
            match w@ {
                Json::Str(s) => match kind_of(s) {
                    Some(t) => r == Ok::<FileType, DecodeError>(t),
                    None => r == Err::<FileType, DecodeError>(DecodeError::UnknownFileType),
                },
                _ => r == Err::<FileType, DecodeError>(DecodeError::InvalidType),
            },
    {
        match w {
            Wire::Str(s) => FileType::from(s),
            _ => Err(DecodeError::InvalidType),
        }
    }
}

/// Every kind's token names that kind.
pub proof fn lemma_token_names(t: FileType)
    ensures
        kind_of(seq![t.token()]) == Some(t),
{
    assert(forall|a: char, b: char| a != b ==> seq![a] != seq![b]) by {
        assert forall|a: char, b: char| a != b implies seq![a] != seq![b] by {
            assert(seq![a][0] != seq![b][0]);
        }
    }
}

/// Decoding the encoding of any kind gives the kind back, and a token that
/// is one character outside `b c d f p l s D` names no kind.
pub proof fn lemma_file_type_round_trip(t: FileType, c: char)
    ensures
        kind_of(seq![t.token()]) == Some(t),
        !(c == 'b' || c == 'c' || c == 'd' || c == 'f' || c == 'p' || c == 'l' || c == 's' || c == 'D')
            ==> kind_of(seq![c]) is None,
{
    lemma_token_names(t);
    assert(forall|a: char, b: char| a != b ==> seq![a] != seq![b]) by {
        assert forall|a: char, b: char| a != b implies seq![a] != seq![b] by {
            assert(seq![a][0] != seq![b][0]);
        }
    }
}

/// The content hash of a file, or the error met computing it. On the wire
/// a bare string is a hash, and an object with an `error` key the error.
#[derive(Debug, Clone)]
pub enum ContentSha1Hex {
    /// The 40-hex-digit SHA-1 hash of the file's contents.
    Hash(String),
    /// Why the hash could not be computed.
    Error { error: String },
}

impl ContentSha1Hex {
    /// Whether `self` is what reading `j` gives.
    pub open spec fn read_from(&self, j: Json) -> bool {
        match j {
            Json::Str(s) => self matches ContentSha1Hex::Hash(h) && h@ == s,
            Json::Object(e) => self matches ContentSha1Hex::Error { error } && str_of(field(e, "error"@)) == Some(error@),
            _ => false,
        }
    }

    /// Whether `j` reads as a hash result: a string, or an object whose
    /// `error` is a string.
    pub open spec fn readable(j: Json) -> bool {
        j is Str || (j matches Json::Object(e) && str_of(field(e, "error"@)) is Some)
    }

    /// Reads the value from the wire; fails exactly where `readable` does not hold.
    pub fn from_json(w: &Wire) -> (r: Result<ContentSha1Hex, DecodeError>)
        ensures
            r is Ok <==> Self::readable(w@),
            r matches Ok(h) ==> h.read_from(w@),
    {
        match w {
            Wire::Str(s) => Ok(ContentSha1Hex::Hash(s.clone())),
            Wire::Object(e) => {
                proof {
                    crate::wire::lemma_object_view(*e);
                }
                let error = crate::wire::read_string(e, "error")?;
                Ok(ContentSha1Hex::Error { error })
            },
            _ => Err(DecodeError::InvalidType),
        }
    }
}

} // verus!
