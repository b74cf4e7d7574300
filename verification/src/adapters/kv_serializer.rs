//! Writes a record as `key<separator>value` lines, one per field, as its fields are handed in.

use vstd::prelude::*;

use crate::text::{i64_to_decimal, int_text, spec_digits, u64_to_digits};

verus! {

/// Why a value could not be written.
#[derive(Debug, PartialEq)]
pub enum Serror {
    Msg(String),
}

/// A writer of records, field by field.
pub struct KeyValueSerializer {
    output: String,
    separator: String,
    seq_separator: String,
    comment_char: String,
}

/// What a record writer holds: the text so far and its settings.
#[verifier::ext_equal]
pub struct KvSerializerModel {
    pub output: Seq<char>,
    pub separator: Seq<char>,
    pub seq_separator: Seq<char>,
    pub comment_char: Seq<char>,
}

impl KvSerializerModel {
    /// The same writer with `text` added to its output.
    pub open spec fn add(self, text: Seq<char>) -> KvSerializerModel {
        KvSerializerModel { output: self.output + text, ..self }
    }
}

impl View for KeyValueSerializer {
    type V = KvSerializerModel;

    closed spec fn view(&self) -> KvSerializerModel {
        KvSerializerModel {
            output: self.output@,
            separator: self.separator@,
            seq_separator: self.seq_separator@,
            comment_char: self.comment_char@,
        }
    }
}

impl KeyValueSerializer {
    /// A writer with `separator` between key and value, `, ` between sequence items and
    /// `# ` as comment marker.
    pub fn new(separator: &str) -> (r: Self)
        ensures
            r@.output.len() == 0,
            r@.separator == separator@,
            r@.seq_separator == ", "@,
            r@.comment_char == "# "@,
    {
        KeyValueSerializer {
            separator: separator.to_string(),
            comment_char: "# ".to_string(),
            seq_separator: ", ".to_string(),
            output: String::new(),
        }
    }

    /// Sets the comment marker.
    pub fn set_comment_char(&mut self, comment_char: &str) -> (r: &mut Self)
        ensures
            (*r)@ == (KvSerializerModel { comment_char: comment_char@, ..old(self)@ }),
            *final(self) == *final(r),
    {
        self.comment_char = comment_char.to_string();
        self
    }

    /// Sets the separator written after each sequence item.
    pub fn set_seq_separator(&mut self, separator: &str) -> (r: &mut Self)
        ensures
            (*r)@ == (KvSerializerModel { seq_separator: separator@, ..old(self)@ }),
            *final(self) == *final(r),
    {
        self.seq_separator = separator.to_string();
        self
    }

    /// Adds `comment` to the output as it is.
    pub fn comment(&mut self, comment: &str) -> (r: &mut Self)
        ensures
            (*r)@ == old(self)@.add(comment@),
            *final(self) == *final(r),
    {
        self.output.append(comment);
        self
    }

    /// Empties the output, before a record is written.
    pub fn clear(&mut self)
        ensures
            final(self)@ == (KvSerializerModel { output: Seq::empty(), ..old(self)@ }),
    {
        self.output = String::new();
    }

    /// The output so far.
    pub fn output(&self) -> (r: String)
        ensures
            r@ == self@.output,
    {
        self.output.clone()
    }

    /// Writes a boolean as `true` or `false`.
    pub fn serialize_bool(&mut self, v: bool)
        ensures
            final(self)@ == old(self)@.add(if v { "true"@ } else { "false"@ }),
    {
        self.output.append(if v { "true" } else { "false" });
    }

    /// Writes a signed integer in decimal.
    pub fn serialize_i64(&mut self, v: i64)
        ensures
            final(self)@ == old(self)@.add(int_text(v as int)),
    {
        let t = i64_to_decimal(v);
        self.output.append(t.as_str());
    }

    /// Writes an unsigned integer in decimal.
    pub fn serialize_u64(&mut self, v: u64)
        ensures
            final(self)@ == old(self)@.add(spec_digits(v as nat, 10)),
    {
        let t = u64_to_digits(v, 10);
        self.output.append(t.as_str());
    }

    /// Writes text as it is (strings, characters, unit variants).
    pub fn serialize_str(&mut self, v: &str)
        ensures
            final(self)@ == old(self)@.add(v@),
    {
        self.output.append(v);
    }

    /// Ends a sequence item with the sequence separator.
    pub fn end_element(&mut self)
        ensures
            final(self)@ == old(self)@.add(old(self)@.seq_separator),
    {
        let sep = self.seq_separator.clone();
        self.output.append(sep.as_str());
    }

    /// Starts a field: its key and the separator.
    pub fn begin_field(&mut self, key: &str)
        ensures
            final(self)@ == old(self)@.add(key@ + old(self)@.separator),
    {
        self.output.append(key);
        let sep = self.separator.clone();
        self.output.append(sep.as_str());
        assert(self@ =~= old(self)@.add(key@ + old(self)@.separator));
    }

    /// Ends a field with a newline.
    pub fn end_field(&mut self)
        ensures
            final(self)@ == old(self)@.add("\n"@),
    {
        self.output.append("\n");
    }
}

} // verus!
