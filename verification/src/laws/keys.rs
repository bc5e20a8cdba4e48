//! Keys: how they are written and read, what they are good for, and where they go.

use crate::cryptography::{ClientKey, KeyError, SharedSecret};
use crate::json::ToJson;
use crate::keygen::KeyKind;
use crate::outside;
use vstd::prelude::*;
use vstd::string::*;

verus! {

/// Whether a text is whitespace, if anything.
pub open spec fn is_blank(text: Seq<char>) -> bool {
    forall|i: int| 0 <= i < text.len() ==> crate::text::is_whitespace(#[trigger] text[i])
}

/// Whether whitespace stands at neither end of a text.
pub open spec fn is_tight(text: Seq<char>) -> bool {
    text.len() > 0 ==> !crate::text::is_whitespace(text[0]) && !crate::text::is_whitespace(
        text[text.len() - 1],
    )
}

/// Trimming undoes the addition of whitespace at the ends of a text that has none
/// there.
pub proof fn law_trimming_undoes_padding(before: Seq<char>, text: Seq<char>, after: Seq<char>)
    requires
        is_blank(before),
        is_tight(text),
        is_blank(after),
    ensures
        crate::text::trimmed(before + text + after) == text,
{
    let whole = before + text + after;
    crate::laws::wire::law_trimming_takes_the_ends_off(whole);
    let (from, to) = choose|from: int, to: int|
        {
            &&& 0 <= from <= to <= whole.len()
            &&& crate::text::trimmed(whole) == #[trigger] whole.subrange(from, to)
            &&& forall|i: int|
                0 <= i < from || to <= i < whole.len() ==> crate::text::is_whitespace(
                    #[trigger] whole[i],
                )
            &&& from < to ==> !crate::text::is_whitespace(whole[from])
                && !crate::text::is_whitespace(whole[to - 1])
        };
    let start = before.len() as int;
    let end = start + text.len();
    assert forall|i: int| 0 <= i < start || end <= i < whole.len() implies
        crate::text::is_whitespace(#[trigger] whole[i]) by {
        if i < start {
            assert(whole[i] == before[i]);
        } else {
            assert(whole[i] == after[i - end]);
        }
    }
    if text.len() > 0 {
        assert(whole[start] == text[0]);
        assert(whole[end - 1] == text[text.len() - 1]);
        assert(from <= start && end <= to);
        assert(start <= from);
        assert(to <= end);
    }
    assert(whole.subrange(from, to) =~= text);
}

/// A server's key is read from a file with its 32 bytes in Base64, whatever
/// whitespace stands around them; Base64 of more or fewer bytes has the wrong
/// length, and anything else is not Base64.
pub proof fn law_server_keys_are_read(before: Seq<char>, text: Seq<char>, after: Seq<char>)
    requires
        is_blank(before),
        is_tight(text),
        is_blank(after),
    ensures
        crate::cryptography::static_key(before + text + after) == (match outside::base64_bytes(
            text,
        ) {
            Some(bytes) => if bytes.len() == 32 {
                Ok(bytes)
            } else {
                Err(KeyError::WrongLength)
            },
            None => Err(KeyError::NotBase64),
        }),
{
    law_trimming_undoes_padding(before, text, after);
}

/// A client's public key is read from a file with its 32 bytes in Base64, whatever
/// whitespace stands around them, if they are an Ed25519 public key; and from
/// nothing else.
pub proof fn law_public_keys_are_read(before: Seq<char>, text: Seq<char>, after: Seq<char>)
    requires
        is_blank(before),
        is_tight(text),
        is_blank(after),
    ensures
        crate::cryptography::verifying_key(before + text + after) == (match outside::base64_bytes(
            text,
        ) {
            Some(bytes) if bytes.len() == 32 && outside::ed25519_valid(bytes) => Some(bytes),
            _ => None,
        }),
{
    law_trimming_undoes_padding(before, text, after);
}

/// A client key is the one that the JSON reader reads, where it reads one; and where
/// it reads none, it is the one in the binary form, or there is none.
pub proof fn law_client_keys_are_read<J: Fn(&Vec<u8>) -> Option<ClientKey>>(
    json: J,
    bytes: Vec<u8>,
    read: Option<ClientKey>,
    result: Result<ClientKey, KeyError>,
)
    requires
        forall|other: Option<ClientKey>|
            #[trigger] call_ensures(json, (&bytes,), other) ==> other == read,
        crate::cryptography::read_as(json, bytes, result),
    ensures
        match (read, outside::archived_key(bytes@)) {
            (Some(key), _) => result == Ok::<ClientKey, KeyError>(key),
            (None, Some((name, seed))) => result matches Ok(key) && key.client_name@ == name
                && key.key@ == seed,
            (None, None) => result == Err::<ClientKey, KeyError>(KeyError::UnknownFormat),
        },
{
}

/// The texts of a client's key pair are the Base64 of its key in JSON, with its name
/// and 32 bytes, and that of the public key which belongs to them; those of a
/// server's are the Base64 of 32 bytes, and of the public key which belongs to them.
pub proof fn law_key_pairs_belong_together(
    kind: KeyKind,
    name: String,
    private_text: Seq<char>,
    public_text: Seq<char>,
)
    requires
        crate::keygen::is_key_pair(kind, name, private_text, public_text),
    ensures
        kind is Client ==> exists|key: ClientKey|
            {
                &&& #[trigger] outside::ed25519_public(key.key@) == outside::base64_bytes(
                    public_text,
                )->0
                &&& outside::base64_bytes(public_text) is Some
                &&& key.client_name == name
                &&& key.key@.len() == 32
                &&& outside::base64_bytes(private_text) == Some(
                    vstd::utf8::encode_utf8(
                        "{\"client_name\":"@ + outside::json_quoted(name@) + ",\"key\":"@ + ("["@
                            + crate::json::comma_separated(key.key@) + "]"@) + "}"@,
                    ),
                )
            },
        kind is Server ==> {
            &&& crate::cryptography::static_key(private_text) matches Ok(key)
            &&& key.len() == 32
            &&& outside::base64_bytes(public_text) == Some(outside::x25519_public(key))
        },
{
    match kind {
        KeyKind::Client => {
            let key = choose|key: ClientKey|
                {
                    &&& key.client_name == name
                    &&& key.key@.len() == 32
                    &&& #[trigger] crate::cryptography::base64_of(
                        vstd::utf8::encode_utf8(key.json()),
                        private_text,
                    )
                    &&& crate::cryptography::base64_of(
                        outside::ed25519_public(key.key@),
                        public_text,
                    )
                };
            assert(outside::ed25519_public(key.key@) == outside::base64_bytes(public_text)->0);
        },
        KeyKind::Server => {
            let key = choose|key: Seq<u8>|
                {
                    &&& key.len() == 32
                    &&& #[trigger] crate::cryptography::base64_of(key, private_text)
                    &&& crate::cryptography::base64_of(outside::x25519_public(key), public_text)
                };
            crate::cryptography::law_server_key_reads_back(key, private_text);
        },
    }
}

/// What is read from the Base64 of some bytes is those bytes, and the text has no
/// whitespace.
pub proof fn law_base64_reads_back(bytes: Seq<u8>, text: Seq<char>)
    requires
        crate::cryptography::base64_of(bytes, text),
    ensures
        text == outside::base64_text(bytes),
        outside::base64_bytes(text) == Some(bytes),
        is_tight(text),
{
    if text.len() > 0 {
        assert(outside::is_base64_char(text[0]));
        assert(outside::is_base64_char(text[text.len() - 1]));
    }
}

/// A shared secret is the one of the two keys, and is contributory exactly if one of
/// its 32 bytes is not zero.
pub proof fn law_shared_secrets_are_of_both_keys(
    secret: Seq<u8>,
    public: Seq<u8>,
    shared: SharedSecret,
)
    requires
        crate::cryptography::exchanged(secret, public, shared),
    ensures
        shared.bytes() == outside::x25519_shared(secret, public),
        shared.contributory() <==> exists|i: int|
            0 <= i < 32 && (#[trigger] shared.bytes()[i]) != 0,
{
    if exists|i: int| 0 <= i < 32 && (#[trigger] shared.bytes()[i]) != 0 {
        assert(crate::cryptography::is_contributory(shared.bytes()));
    }
}

/// Whether bytes are the name of a file: there are some, and none is a slash.
pub open spec fn is_name(bytes: Seq<u8>) -> bool {
    bytes.len() > 0 && forall|i: int| 0 <= i < bytes.len() ==> (#[trigger] bytes[i]) != 0x2f
}

/// Two files by their names alone are the same exactly if the names are; and none is
/// the same as one under the root.
pub proof fn law_names_are_told_apart(one: Seq<u8>, other: Seq<u8>)
    requires
        is_name(one),
        is_name(other),
    ensures
        crate::keygen::same_path(one, other) <==> one == other,
        !crate::keygen::same_path(one, seq![0x2fu8] + other),
{
    lemma_parts_of_a_name(Seq::empty(), one);
    lemma_parts_of_a_name(Seq::empty(), other);
    let alone = seq![one];
    let another = seq![other];
    assert(Seq::<u8>::empty() + one =~= one);
    assert(Seq::<u8>::empty() + other =~= other);
    assert(crate::keygen::path_parts(one) =~= alone);
    assert(crate::keygen::path_parts(other) =~= another);
    assert(alone.drop_last() =~= Seq::<Seq<u8>>::empty());
    assert(another.drop_last() =~= Seq::<Seq<u8>>::empty());
    assert(crate::keygen::counting_parts(alone.drop_last(), false) =~= Seq::<Seq<u8>>::empty());
    assert(crate::keygen::counting_parts(alone, false) =~= alone);
    assert(crate::keygen::counting_parts(another, false) =~= another);
    assert(alone[0] == one);
    assert(another[0] == other);
}

/// Two files in directories are the same exactly if the directories and the names
/// are; a slash too many, or a dot for the directory itself, makes no difference.
pub proof fn law_directories_are_told_apart(
    one: Seq<u8>,
    name: Seq<u8>,
    other: Seq<u8>,
    other_name: Seq<u8>,
)
    requires
        one.len() > 0,
        other.len() > 0,
        is_name(name),
        is_name(other_name),
        name != seq![0x2eu8],
        other_name != seq![0x2eu8],
    ensures
        crate::keygen::same_path(one.push(0x2f) + name, other.push(0x2f) + other_name) <==> (
        crate::keygen::same_path(one, other) && name == other_name),
        crate::keygen::same_path(one.push(0x2f).push(0x2f) + name, one.push(0x2f) + name),
        crate::keygen::same_path(one.push(0x2f).push(0x2e).push(0x2f) + name, one.push(0x2f) + name),
{
    lemma_file_in_directory(one, name);
    lemma_file_in_directory(other, other_name);
    let absolute = crate::keygen::is_absolute(one);
    let ours = crate::keygen::counting_parts(crate::keygen::path_parts(one), absolute);
    let theirs = crate::keygen::counting_parts(crate::keygen::path_parts(other), absolute);
    if ours.push(name) == theirs.push(other_name) {
        assert(ours.push(name).drop_last() =~= ours);
        assert(theirs.push(other_name).drop_last() =~= theirs);
        assert(ours.push(name).last() == name);
        assert(theirs.push(other_name).last() == other_name);
    }
    let slashed = one.push(0x2f);
    lemma_file_in_directory(slashed, name);
    assert(slashed.drop_last() =~= one);
    let parts = crate::keygen::path_parts(slashed);
    assert(parts.drop_last() =~= crate::keygen::path_parts(one));
    assert(parts.last() == Seq::<u8>::empty());
    let dotted = slashed.push(0x2e);
    lemma_file_in_directory(dotted, name);
    assert(dotted.drop_last() =~= slashed);
    let longer = crate::keygen::path_parts(dotted);
    assert(longer.drop_last() =~= crate::keygen::path_parts(one));
    assert(longer.last() =~= seq![0x2eu8]);
    lemma_some_parts(one);
}

proof fn lemma_some_parts(path: Seq<u8>)
    ensures
        crate::keygen::path_parts(path).len() > 0,
    decreases path.len(),
{
    if path.len() > 0 {
        lemma_some_parts(path.drop_last());
    }
}

proof fn lemma_file_in_directory(directory: Seq<u8>, name: Seq<u8>)
    requires
        directory.len() > 0,
        is_name(name),
        name != seq![0x2eu8],
    ensures
        ({
            let path = directory.push(0x2f) + name;
            let absolute = crate::keygen::is_absolute(directory);
            &&& crate::keygen::is_absolute(path) == absolute
            &&& crate::keygen::counting_parts(crate::keygen::path_parts(path), absolute)
                == crate::keygen::counting_parts(
                crate::keygen::path_parts(directory),
                absolute,
            ).push(name)
        }),
{
    let slashed = directory.push(0x2f);
    lemma_parts_of_a_name(slashed, name);
    lemma_some_parts(directory);
    assert(slashed.drop_last() =~= directory);
    let before = crate::keygen::path_parts(directory);
    let parts = crate::keygen::path_parts(slashed + name);
    assert(crate::keygen::path_parts(slashed) =~= before.push(Seq::empty()));
    assert(parts =~= before.push(name));
    assert(parts.drop_last() =~= before);
    assert(parts.last() == name);
}

/// A name that is put after a path goes on with the path's last part.
proof fn lemma_parts_of_a_name(path: Seq<u8>, name: Seq<u8>)
    requires
        forall|i: int| 0 <= i < name.len() ==> (#[trigger] name[i]) != 0x2f,
    ensures
        ({
            let before = crate::keygen::path_parts(path);
            &&& before.len() > 0
            &&& crate::keygen::path_parts(path + name) == before.drop_last().push(
                before.last() + name,
            )
        }),
    decreases name.len(),
{
    lemma_some_parts(path);
    let before = crate::keygen::path_parts(path);
    if name.len() == 0 {
        assert(path + name =~= path);
        assert(before.last() + name =~= before.last());
        assert(before =~= before.drop_last().push(before.last()));
    } else {
        let shorter = name.drop_last();
        assert forall|i: int| 0 <= i < shorter.len() implies (#[trigger] shorter[i]) != 0x2f by {
            assert(shorter[i] == name[i]);
        }
        lemma_parts_of_a_name(path, shorter);
        let whole = path + name;
        assert(whole.drop_last() =~= path + shorter);
        assert(whole.last() == name[name.len() - 1]);
        let parts = before.drop_last().push(before.last() + shorter);
        assert(parts.drop_last() =~= before.drop_last());
        assert((before.last() + shorter).push(name.last()) =~= before.last() + name);
    }
}

} // verus!
