//! The key generator: which keys it makes, and where they go.

use crate::cryptography::{ClientKey, Keygen, ServerKeygen};
use crate::json::ToJson;
use crate::outside;
use crate::text::trim;
use vstd::prelude::*;
use vstd::string::*;

verus! {

/// Whose key is to be made.
#[derive(Debug, Clone, Copy, PartialEq, Eq, Structural)]
pub enum KeyKind {
    /// A client's, to sign its tokens with.
    Client,
    /// A server's, for the encryption handshake. There is one per server.
    Server,
}

impl Default for KeyKind {
    fn default() -> (kind: KeyKind)
        ensures
            kind == KeyKind::Client,
    {
        KeyKind::Client
    }
}

/// What the key generator is asked for. Paths are the bytes that the operating
/// system knows them by.
#[derive(Debug)]
pub struct CliArguments {
    pub name: Option<String>,
    pub kind: KeyKind,
    pub private_key_output: Option<Vec<u8>>,
    pub public_key_output: Option<Vec<u8>>,
}

/// The slash between the parts of a path.
pub const SLASH: u8 = 0x2f;

/// The dot that stands for the directory itself.
pub const DOT: u8 = 0x2e;

/// The parts of a path between its slashes.
pub open spec fn path_parts(path: Seq<u8>) -> Seq<Seq<u8>>
    decreases path.len(),
{
    if path.len() == 0 {
        seq![Seq::empty()]
    } else {
        let before = path_parts(path.drop_last());
        if path.last() == SLASH {
            before.push(Seq::empty())
        } else {
            before.drop_last().push(before.last().push(path.last()))
        }
    }
}

/// Whether a path starts at the root.
pub open spec fn is_absolute(path: Seq<u8>) -> bool {
    path.len() > 0 && path[0] == SLASH
}

/// Whether a part of a path counts: an empty one does not, nor does a dot
/// except at the very start of a relative path.
pub open spec fn part_counts(part: Seq<u8>, at: int, absolute: bool) -> bool {
    part.len() > 0 && !(part == seq![DOT] && (at > 0 || absolute))
}

/// The parts of a path that count.
pub open spec fn counting_parts(parts: Seq<Seq<u8>>, absolute: bool) -> Seq<Seq<u8>>
    decreases parts.len(),
{
    if parts.len() == 0 {
        Seq::empty()
    } else {
        let before = counting_parts(parts.drop_last(), absolute);
        if part_counts(parts.last(), parts.len() - 1, absolute) {
            before.push(parts.last())
        } else {
            before
        }
    }
}

/// Whether two paths are the same, part by part: repeated and trailing slashes
/// do not matter, nor do dots within.
pub open spec fn same_path(one: Seq<u8>, other: Seq<u8>) -> bool {
    &&& is_absolute(one) == is_absolute(other)
    &&& counting_parts(path_parts(one), is_absolute(one)) == counting_parts(
        path_parts(other),
        is_absolute(other),
    )
}

/// The contents of several byte strings.
pub open spec fn byte_strings(list: Seq<Vec<u8>>) -> Seq<Seq<u8>> {
    Seq::new(list.len(), |i: int| list[i]@)
}

fn split_path(path: &Vec<u8>) -> (parts: Vec<Vec<u8>>)
    ensures
        byte_strings(parts@) == path_parts(path@),
{
    let mut done: Vec<Vec<u8>> = Vec::new();
    let mut current: Vec<u8> = Vec::new();
    let mut i: usize = 0;
    assert(byte_strings(done@).push(current@) =~= path_parts(path@.subrange(0, 0)));
    while i < path.len()
        invariant
            i <= path.len(),
            byte_strings(done@).push(current@) == path_parts(path@.subrange(0, i as int)),
        decreases path.len() - i,
    {
        let byte: u8 = path[i];
        let ghost before = byte_strings(done@).push(current@);
        proof {
            let next = path@.subrange(0, i + 1);
            assert(next.drop_last() =~= path@.subrange(0, i as int));
            assert(next.last() == byte);
            assert(before.drop_last() =~= byte_strings(done@));
            assert(before.last() == current@);
        }
        if byte == SLASH {
            done.push(current);
            current = Vec::new();
            assert(byte_strings(done@) =~= before);
            assert(current@ =~= Seq::<u8>::empty());
        } else {
            current.push(byte);
        }
        i = i + 1;
    }
    let ghost all = byte_strings(done@).push(current@);
    done.push(current);
    assert(byte_strings(done@) =~= all);
    assert(path@.subrange(0, path@.len() as int) =~= path@);
    done
}

fn is_dot(part: &Vec<u8>) -> (dot: bool)
    ensures
        dot == (part@ == seq![DOT]),
{
    let dot = part.len() == 1 && part[0] == DOT;
    assert(dot ==> part@ =~= seq![DOT]);
    dot
}

fn drop_idle_parts(parts: Vec<Vec<u8>>, absolute: bool) -> (kept: Vec<Vec<u8>>)
    ensures
        byte_strings(kept@) == counting_parts(byte_strings(parts@), absolute),
{
    let mut kept: Vec<Vec<u8>> = Vec::new();
    let ghost all = byte_strings(parts@);
    let mut i: usize = 0;
    assert(byte_strings(kept@) =~= counting_parts(all.subrange(0, 0), absolute));
    while i < parts.len()
        invariant
            i <= parts.len(),
            all == byte_strings(parts@),
            byte_strings(kept@) == counting_parts(all.subrange(0, i as int), absolute),
        decreases parts.len() - i,
    {
        let part = &parts[i];
        let ghost before = byte_strings(kept@);
        proof {
            let next = all.subrange(0, i + 1);
            assert(next.drop_last() =~= all.subrange(0, i as int));
            assert(next.last() == part@);
        }
        if part.len() > 0 && !(is_dot(part) && (i > 0 || absolute)) {
            kept.push(copy_bytes(part));
            assert(byte_strings(kept@) =~= before.push(part@));
        }
        i = i + 1;
    }
    assert(all.subrange(0, all.len() as int) =~= all);
    kept
}

fn copy_bytes(bytes: &Vec<u8>) -> (copy: Vec<u8>)
    ensures
        copy@ == bytes@,
{
    vstd::slice::slice_to_vec(bytes.as_slice())
}

fn same_parts(one: &Vec<Vec<u8>>, other: &Vec<Vec<u8>>) -> (same: bool)
    ensures
        same == (byte_strings(one@) == byte_strings(other@)),
{
    if one.len() != other.len() {
        assert(byte_strings(one@).len() != byte_strings(other@).len());
        return false;
    }
    let mut i: usize = 0;
    while i < one.len()
        invariant
            i <= one.len(),
            one@.len() == other@.len(),
            forall|j: int| 0 <= j < i ==> (#[trigger] one@[j])@ == other@[j]@,
        decreases one.len() - i,
    {
        if !crate::text::same_bytes(one[i].as_slice(), other[i].as_slice()) {
            assert(byte_strings(one@)[i as int] != byte_strings(other@)[i as int]);
            return false;
        }
        i = i + 1;
    }
    assert(byte_strings(one@) =~= byte_strings(other@));
    true
}

/// Whether two paths are the same, part by part.
pub fn is_same_path(one: &Vec<u8>, other: &Vec<u8>) -> (same: bool)
    ensures
        same == same_path(one@, other@),
{
    let one_absolute = one.len() > 0 && one[0] == SLASH;
    let other_absolute = other.len() > 0 && other[0] == SLASH;
    let one_parts = drop_idle_parts(split_path(one), one_absolute);
    let other_parts = drop_idle_parts(split_path(other), other_absolute);
    one_absolute == other_absolute && same_parts(&one_parts, &other_parts)
}

/// The two keys would be written to the same file.
#[derive(Debug, Clone, Copy, PartialEq, Eq, Structural)]
pub struct SameOutputPath;

/// Refuses to write both keys to the same path: the public key would silently
/// overwrite the private one.
pub fn validate_output_paths(arguments: &CliArguments) -> (result: Result<(), SameOutputPath>)
    ensures
        result == (match (arguments.private_key_output, arguments.public_key_output) {
            (Some(private), Some(public)) => if same_path(private@, public@) {
                Err(SameOutputPath)
            } else {
                Ok(())
            },
            _ => Ok(()),
        }),
{
    match (&arguments.private_key_output, &arguments.public_key_output) {
        (Some(private), Some(public)) => if is_same_path(private, public) {
            Err(SameOutputPath)
        } else {
            Ok(())
        },
        _ => Ok(()),
    }
}

/// A path is the same as itself, and so is one that is the same as another in
/// the other direction.
pub proof fn law_same_path_is_an_equivalence(one: Seq<u8>, other: Seq<u8>, third: Seq<u8>)
    ensures
        same_path(one, one),
        same_path(one, other) ==> same_path(other, one),
        same_path(one, other) && same_path(other, third) ==> same_path(one, third),
{
}

/// A slash at the end of a path that has something before it does not matter.
pub proof fn law_trailing_slash_does_not_matter(path: Seq<u8>)
    requires
        path.len() > 0,
    ensures
        same_path(path, path.push(SLASH)),
{
    let longer = path.push(SLASH);
    assert(longer.drop_last() =~= path);
    let parts = path_parts(longer);
    assert(parts.drop_last() =~= path_parts(path));
    assert(parts.last() == Seq::<u8>::empty());
}

/// The name that was typed in at a prompt: the line without the whitespace
/// around it.
pub fn entered_name(line: &str) -> (name: String)
    ensures
        name@ == crate::text::trimmed(line@),
{
    trim(line)
}

/// Whether the texts are those of a key pair of this kind, for a client of
/// this name.
pub open spec fn is_key_pair(
    kind: KeyKind,
    name: String,
    private_text: Seq<char>,
    public_text: Seq<char>,
) -> bool {
    match kind {
        KeyKind::Client => exists|key: ClientKey|
            {
                &&& key.client_name == name
                &&& key.key@.len() == 32
                &&& #[trigger] crate::cryptography::base64_of(
                    vstd::utf8::encode_utf8(key.json()),
                    private_text,
                )
                &&& crate::cryptography::base64_of(
                    outside::ed25519_public(key.key@),
                    public_text,
                )
            },
        KeyKind::Server => exists|key: Seq<u8>|
            {
                &&& key.len() == 32
                &&& #[trigger] crate::cryptography::base64_of(key, private_text)
                &&& crate::cryptography::base64_of(outside::x25519_public(key), public_text)
            },
    }
}

/// Makes a key pair, and gives the private and the public key as text. A
/// server's key has no name.
pub fn generate(kind: KeyKind, name: String) -> (texts: (String, String))
    ensures
        is_key_pair(kind, name, texts.0@, texts.1@),
{
    match kind {
        KeyKind::Client => {
            let keygen = Keygen::new(name);
            let private_text = keygen.private_key_base64();
            let public_text = keygen.public_key_base64();
            let ghost key = keygen.private();
            assert(crate::cryptography::base64_of(
                vstd::utf8::encode_utf8(key.json()),
                private_text@,
            ));
            (private_text, public_text)
        },
        KeyKind::Server => {
            let keygen = ServerKeygen::new();
            let private_text = keygen.private_key_base64();
            let public_text = keygen.public_key_base64();
            assert(crate::cryptography::base64_of(keygen.private(), private_text@));
            (private_text, public_text)
        },
    }
}

/// Who may read a written file. Public keys are meant to be shared; private
/// keys are for their owner alone, whatever the umask.
#[derive(Debug, Clone, Copy, PartialEq, Eq, Structural)]
pub enum WritePermissions {
    Default,
    OwnerOnly,
}

/// What becomes of a key.
pub enum Delivery {
    /// It is written to a file, which is then restricted to its owner if
    /// `owner_only`.
    Write { contents: String, owner_only: bool },
    /// It is printed; after a warning, if `warn`, since it is a secret.
    Print { line: String, warn: bool },
}

/// Decides what becomes of a key: with a path to write to it goes there, and
/// without one it is printed.
pub fn write_or_print(
    label: &str,
    value: String,
    has_output: bool,
    permissions: WritePermissions,
) -> (delivery: Delivery)
    ensures
        if has_output {
            delivery == (Delivery::Write {
                contents: value,
                owner_only: permissions == WritePermissions::OwnerOnly,
            })
        } else {
            delivery matches Delivery::Print { line, warn } && line@ == label@ + ": "@ + value@
                && warn == (permissions == WritePermissions::OwnerOnly)
        },
{
    let owner_only = permissions == WritePermissions::OwnerOnly;
    if has_output {
        Delivery::Write { contents: value, owner_only }
    } else {
        let mut line = label.to_owned();
        line.append(": ");
        line.append(value.as_str());
        Delivery::Print { line, warn: owner_only }
    }
}

/// What is said of a key that was written to a file.
pub fn written_notice(label: &str, path: &str) -> (line: String)
    ensures
        line@ == label@ + " written to "@ + path@,
{
    let mut line = label.to_owned();
    line.append(" written to ");
    line.append(path);
    line
}

} // verus!
