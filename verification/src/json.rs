//! The JSON form of what goes over the wire and into key files.

use crate::outside;
use crate::text::{append_decimal, append_signed_decimal};
use vstd::prelude::*;
use vstd::string::*;

verus! {

/// A value that has a JSON form.
pub trait ToJson {
    /// The JSON text of the value.
    spec fn json(&self) -> Seq<char>;

    /// Appends the JSON text of the value.
    fn write_json(&self, out: &mut String)
        ensures
            final(out)@ == old(out)@ + self.json(),
    ;
}

/// The JSON text of a value.
pub fn to_json<T: ToJson>(value: &T) -> (text: String)
    ensures
        text@ == value.json(),
{
    let mut text = String::new();
    value.write_json(&mut text);
    assert(text@ =~= value.json());
    text
}

/// The JSON text of a value, as bytes.
pub fn to_json_bytes<T: ToJson>(value: &T) -> (bytes: Vec<u8>)
    ensures
        bytes@ == vstd::utf8::encode_utf8(value.json()),
{
    let text = to_json(value);
    text.as_str().as_bytes_vec()
}

impl ToJson for String {
    open spec fn json(&self) -> Seq<char> {
        outside::json_quoted(self@)
    }

    fn write_json(&self, out: &mut String) {
        let json = outside::json_string(self.as_str());
        out.append(json.as_str());
    }
}

impl ToJson for u8 {
    open spec fn json(&self) -> Seq<char> {
        crate::text::decimal(*self as nat)
    }

    fn write_json(&self, out: &mut String) {
        append_decimal(out, *self as u64);
    }
}

impl ToJson for usize {
    open spec fn json(&self) -> Seq<char> {
        crate::text::decimal(*self as nat)
    }

    fn write_json(&self, out: &mut String) {
        append_decimal(out, *self as u64);
    }
}

impl ToJson for i32 {
    open spec fn json(&self) -> Seq<char> {
        crate::text::signed_decimal(*self as int)
    }

    fn write_json(&self, out: &mut String) {
        append_signed_decimal(out, *self as i64);
    }
}

impl<T: ToJson> ToJson for Option<T> {
    open spec fn json(&self) -> Seq<char> {
        match self {
            Some(value) => value.json(),
            None => "null"@,
        }
    }

    fn write_json(&self, out: &mut String) {
        match self {
            Some(value) => value.write_json(out),
            None => out.append("null"),
        }
    }
}

/// JSON texts with commas between them.
pub open spec fn comma_separated<T: ToJson>(items: Seq<T>) -> Seq<char>
    decreases items.len(),
{
    if items.len() == 0 {
        Seq::empty()
    } else if items.len() == 1 {
        items[0].json()
    } else {
        comma_separated(items.drop_last()) + ","@ + items.last().json()
    }
}

impl<T: ToJson> ToJson for Vec<T> {
    open spec fn json(&self) -> Seq<char> {
        "["@ + comma_separated(self@) + "]"@
    }

    fn write_json(&self, out: &mut String) {
        out.append("[");
        let ghost start = out@;
        let mut i: usize = 0;
        while i < self.len()
            invariant
                i <= self.len(),
                out@ == start + comma_separated(self@.subrange(0, i as int)),
            decreases self.len() - i,
        {
            proof {
                let next = self@.subrange(0, i + 1);
                assert(next.drop_last() =~= self@.subrange(0, i as int));
                assert(next.last() == self@[i as int]);
            }
            if i > 0 {
                out.append(",");
            }
            self[i].write_json(out);
            i = i + 1;
            assert(out@ =~= start + comma_separated(self@.subrange(0, i as int)));
        }
        assert(self@.subrange(0, self@.len() as int) =~= self@);
        out.append("]");
        assert(out@ =~= old(out)@ + self.json());
    }
}

} // verus!
