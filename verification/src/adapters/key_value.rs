//! Writes `key<separator>value` lines, one per setting, with comments and indentation.

use vstd::prelude::*;

use crate::adapters::AdapterError;
use crate::text::{i64_to_decimal, int_text, join, repeat_spaces, spaces, spec_join, str_equal, views};
use crate::toml_value::{Entry, TomlTable, TomlValue, render_value, render_items, render_pairs};

verus! {

/// How booleans are written.
#[derive(Debug, PartialEq, Eq, Structural, Clone, Copy)]
pub enum BoolStyle {
    /// `true` / `false`
    TrueFalse,
    /// `yes` / `no`
    YesNo,
    /// `1` / `0`
    OneZero,
}

/// The text of a boolean in a style.
pub open spec fn bool_text(style: BoolStyle, b: bool) -> Seq<char> {
    match style {
        BoolStyle::TrueFalse => if b { seq!['t', 'r', 'u', 'e'] } else { seq!['f', 'a', 'l', 's', 'e'] },
        BoolStyle::YesNo => if b { seq!['y', 'e', 's'] } else { seq!['n', 'o'] },
        BoolStyle::OneZero => if b { seq!['1'] } else { seq!['0'] },
    }
}

/// The sequence separator that writes each array item on a line of its own.
pub open spec fn multi_marker() -> Seq<char> {
    seq!['m', 'u', 'l', 't', 'i']
}

/// A writer of key/value lines.
pub struct KeyValueAdapter {
    separator: String,
    comment_char: String,
    bool_style: BoolStyle,
    lines: Vec<String>,
    indent_level: usize,
    indent_width: usize,
    sequence_separator: String,
}

/// What a key/value writer holds: its settings and the lines written so far.
#[verifier::ext_equal]
pub struct KeyValueModel {
    pub separator: Seq<char>,
    pub comment_char: Seq<char>,
    pub bool_style: BoolStyle,
    pub lines: Seq<Seq<char>>,
    pub indent_level: nat,
    pub indent_width: nat,
    pub sequence_separator: Seq<char>,
}

/// The settings that decide how a value is written.
#[verifier::ext_equal]
pub struct KvFormat {
    pub separator: Seq<char>,
    pub bool_style: BoolStyle,
    pub indent: nat,
    pub sequence_separator: Seq<char>,
}

impl KvFormat {
    /// A setting line.
    pub open spec fn line(self, key: Seq<char>, value: Seq<char>) -> Seq<char> {
        spaces(self.indent) + key + self.separator + value
    }

    /// The text of a value under these settings.
    pub open spec fn text(self, v: TomlValue) -> Seq<char> {
        render_value(v, bool_text(self.bool_style, true), bool_text(self.bool_style, false), self.sequence_separator)
    }
}

impl KeyValueModel {
    /// The settings that decide how values are written.
    pub open spec fn format(self) -> KvFormat {
        KvFormat {
            separator: self.separator,
            bool_style: self.bool_style,
            indent: self.indent_level * self.indent_width,
            sequence_separator: self.sequence_separator,
        }
    }

    /// The same writer with other lines.
    pub open spec fn with_lines(self, lines: Seq<Seq<char>>) -> KeyValueModel {
        KeyValueModel { lines, ..self }
    }

    /// The same writer one indentation level further in.
    pub open spec fn indented(self) -> KeyValueModel {
        KeyValueModel { indent_level: self.indent_level + 1, ..self }
    }

    /// The same writer one indentation level further out, down to none.
    pub open spec fn outdented(self) -> KeyValueModel {
        KeyValueModel { indent_level: if self.indent_level > 0 { (self.indent_level - 1) as nat } else { 0 }, ..self }
    }

    /// A setting line at the current indentation.
    pub open spec fn line(self, key: Seq<char>, value: Seq<char>) -> Seq<char> {
        spaces(self.indent_level * self.indent_width) + key + self.separator + value
    }
}

impl View for KeyValueAdapter {
    type V = KeyValueModel;

    closed spec fn view(&self) -> KeyValueModel {
        KeyValueModel {
            separator: self.separator@,
            comment_char: self.comment_char@,
            bool_style: self.bool_style,
            lines: views(self.lines@),
            indent_level: self.indent_level as nat,
            indent_width: self.indent_width as nat,
            sequence_separator: self.sequence_separator@,
        }
    }
}

/// The lines a value gives under `key`: one per item of an array when arrays go on several
/// lines (nested arrays flattened), else one.
pub open spec fn value_lines(f: KvFormat, key: Seq<char>, v: TomlValue) -> Seq<Seq<char>>
    decreases v,
{
    match v {
        TomlValue::Array(a) => if f.sequence_separator == multi_marker() {
            item_lines(f, key, a@)
        } else {
            seq![f.line(key, f.text(v))]
        },
        _ => seq![f.line(key, f.text(v))],
    }
}

/// The lines of array items under `key`.
pub open spec fn item_lines(f: KvFormat, key: Seq<char>, a: Seq<TomlValue>) -> Seq<Seq<char>>
    decreases a,
{
    if a.len() == 0 {
        Seq::empty()
    } else {
        item_lines(f, key, a.drop_last()) + value_lines(f, key, a.last())
    }
}

/// The lines of all entries of a table, in key order.
pub open spec fn table_lines(f: KvFormat, es: Seq<Entry>) -> Seq<Seq<char>>
    decreases es.len(),
{
    if es.len() == 0 {
        Seq::empty()
    } else {
        table_lines(f, es.drop_last()) + value_lines(f, es.last().0@, es.last().1)
    }
}

/// One indentation level more puts four more spaces before every later setting line.
pub proof fn lemma_indent_adds_four_spaces(m: KeyValueModel, key: Seq<char>, value: Seq<char>)
    requires
        m.indent_width == 4,
    ensures
        m.indented().line(key, value) == spaces(4) + m.line(key, value),
{
    let l = m.indent_level;
    assert((l + 1) * 4 == l * 4 + 4) by (nonlinear_arith);
    assert(spaces((l + 1) * 4) =~= spaces(4) + spaces(l * 4));
}

/// Going one level out after one level in gives the writer back as it was.
pub proof fn lemma_outdent_undoes_indent(m: KeyValueModel)
    ensures
        m.indented().outdented() == m,
{
}

/// Where arrays are not written one item per line, an array is one line: its items' texts
/// joined by the sequence separator.
pub proof fn lemma_joined_array_line(f: KvFormat, key: Seq<char>, a: Vec<TomlValue>)
    requires
        f.sequence_separator != multi_marker(),
    ensures
        value_lines(f, key, TomlValue::Array(a)) == seq![
            f.line(
                key,
                spec_join(
                    render_items(a@, bool_text(f.bool_style, true), bool_text(f.bool_style, false), f.sequence_separator),
                    f.sequence_separator,
                ),
            ),
        ],
{
}

/// Views of a pushed list.
pub proof fn lemma_views_push(v: Seq<String>, s: String)
    ensures
        views(v.push(s)) == views(v).push(s@),
{
    assert(views(v.push(s)) =~= views(v).push(s@));
}

/// The text of a boolean in a style.
pub fn bool_word(style: BoolStyle, b: bool) -> (r: &'static str)
    ensures
        r@ == bool_text(style, b),
{
    proof {
        reveal_strlit("true");
        reveal_strlit("false");
        reveal_strlit("yes");
        reveal_strlit("no");
        reveal_strlit("1");
        reveal_strlit("0");
    }
    match style {
        BoolStyle::TrueFalse => if b { "true" } else { "false" },
        BoolStyle::YesNo => if b { "yes" } else { "no" },
        BoolStyle::OneZero => if b { "1" } else { "0" },
    }
}

impl KeyValueAdapter {
    /// Every writer indents by four spaces a level.
    #[verifier::type_invariant]
    closed spec fn indents_by_four(self) -> bool {
        self.indent_width == 4
    }

    /// Adds a line at the end.
    fn add_line(&mut self, line: String)
        ensures
            final(self)@ == old(self)@.with_lines(old(self)@.lines.push(line@)),
    {
        proof {
            use_type_invariant(&*self);
        }
        let mut lines: Vec<String> = Vec::new();
        std::mem::swap(&mut lines, &mut self.lines);
        proof {
            lemma_views_push(lines@, line);
        }
        lines.push(line);
        self.lines = lines;
    }

    /// A writer with `separator` between key and value and `comment_char` before comments;
    /// booleans as `true`/`false`, indentation of four spaces, array items on lines of their own.
    pub fn new(separator: &str, comment_char: &str) -> (r: Self)
        ensures
            r@.separator == separator@,
            r@.comment_char == comment_char@,
            r@.bool_style == BoolStyle::TrueFalse,
            r@.lines.len() == 0,
            r@.indent_level == 0,
            r@.indent_width == 4,
            r@.sequence_separator == multi_marker(),
    {
        proof {
            reveal_strlit("multi");
        }
        let r = KeyValueAdapter {
            separator: separator.to_string(),
            comment_char: comment_char.to_string(),
            bool_style: BoolStyle::TrueFalse,
            lines: Vec::new(),
            indent_level: 0,
            indent_width: 4,
            sequence_separator: "multi".to_string(),
        };
        assert(r@.lines =~= Seq::<Seq<char>>::empty());
        r
    }

    /// The same writer with another boolean style.
    pub fn bool_style(self, style: BoolStyle) -> (r: Self)
        ensures
            r@ == (KeyValueModel { bool_style: style, ..self@ }),
            r@.indent_width == 4,
    {
        proof {
            use_type_invariant(&self);
        }
        let mut s = self;
        s.bool_style = style;
        s
    }

    /// The same writer with another separator between array items.
    pub fn sequence_separator(self, separator: &str) -> (r: Self)
        ensures
            r@ == (KeyValueModel { sequence_separator: separator@, ..self@ }),
            r@.indent_width == 4,
    {
        proof {
            use_type_invariant(&self);
        }
        let mut s = self;
        s.sequence_separator = separator.to_string();
        s
    }

    /// Adds the line `<comment_char> <text>`.
    pub fn comment(&mut self, text: &str) -> (r: &mut Self)
        ensures
            (*r)@ == old(self)@.with_lines(old(self)@.lines.push(old(self)@.comment_char + seq![' '] + text@)),
            *final(self) == *final(r),
    {
        let mut line = self.comment_char.clone();
        line.append(" ");
        line.append(text);
        proof {
            reveal_strlit(" ");
            assert(" "@ =~= seq![' ']);
        }
        self.add_line(line);
        self
    }

    /// Adds the line `<indent><key><separator><value>`.
    pub fn set(&mut self, key: &str, value: &str) -> (r: &mut Self)
        requires
            old(self)@.indent_level * old(self)@.indent_width <= usize::MAX,
        ensures
            (*r)@ == old(self)@.with_lines(old(self)@.lines.push(old(self)@.format().line(key@, value@))),
            (*r)@.indent_width == 4,
            *final(self) == *final(r),
    {
        proof {
            use_type_invariant(&*self);
        }
        let mut line = repeat_spaces(self.indent_level * self.indent_width);
        line.append(key);
        line.append(self.separator.as_str());
        line.append(value);
        self.add_line(line);
        self
    }

    /// Writes the lines of every entry of `table`, in key order; an empty table is refused.
    pub fn parse_struct(&mut self, table: &TomlTable) -> (r: Result<&mut Self, AdapterError>)
        requires
            old(self)@.indent_level * old(self)@.indent_width <= usize::MAX,
        ensures
            r is Err <==> table@.len() == 0,
            r is Err ==> *final(self) == *old(self) && r == Err::<&mut Self, AdapterError>(AdapterError::EmptyTable),
            r matches Ok(a) ==> (*a)@ == old(self)@.with_lines(old(self)@.lines + table_lines(old(self)@.format(), table@))
                && *final(self) == *final(a),
    {
        if table.is_empty() {
            return Err(AdapterError::EmptyTable);
        }
        let es = table.entries();
        let mut i: usize = 0;
        while i < es.len()
            invariant
                i <= es@.len(),
                es@ == table@,
                old(self)@.indent_level * old(self)@.indent_width <= usize::MAX,
                self@ == old(self)@.with_lines(old(self)@.lines + table_lines(old(self)@.format(), es@.take(i as int))),
            decreases es.len() - i,
        {
            self.process_value(es[i].0.as_str(), &es[i].1);
            assert(es@.take(i + 1).drop_last() =~= es@.take(i as int));
            assert(es@.take(i + 1).last() == es@[i as int]);
            assert(self@.lines =~= old(self)@.lines + table_lines(old(self)@.format(), es@.take(i + 1)));
            i = i + 1;
        }
        assert(es@.take(es@.len() as int) =~= es@);
        Ok(self)
    }

    /// Writes the lines of one value under `key`.
    fn process_value(&mut self, key: &str, val: &TomlValue)
        requires
            old(self)@.indent_level * old(self)@.indent_width <= usize::MAX,
        ensures
            final(self)@ == old(self)@.with_lines(old(self)@.lines + value_lines(old(self)@.format(), key@, *val)),
        decreases val,
    {
        let ghost m = self@;
        let ghost f = m.format();
        proof {
            reveal_strlit("multi");
            assert("multi"@ =~= multi_marker());
        }
        if let TomlValue::Array(arr) = val {
            if str_equal(self.sequence_separator.as_str(), "multi") {
                let mut i: usize = 0;
                while i < arr.len()
                    invariant
                        i <= arr@.len(),
                        *val == TomlValue::Array(*arr),
                        f == m.format(),
                        f.sequence_separator == multi_marker(),
                        m.indent_level * m.indent_width <= usize::MAX,
                        self@ == m.with_lines(m.lines + item_lines(f, key@, arr@.take(i as int))),
                    decreases arr.len() - i,
                {
                    proof {
                        crate::toml_value::lemma_item_decreases(*val, i as int);
                    }
                    self.process_value(key, &arr[i]);
                    assert(arr@.take(i + 1).drop_last() =~= arr@.take(i as int));
                    assert(arr@.take(i + 1).last() == arr@[i as int]);
                    assert(self@.lines =~= m.lines + item_lines(f, key@, arr@.take(i + 1)));
                    i = i + 1;
                }
                assert(arr@.take(arr@.len() as int) =~= arr@);
                assert(self@.lines =~= m.lines + value_lines(f, key@, *val));
            } else {
                let text = self.stringify(val);
                self.set(key, text.as_str());
                assert(self@.lines =~= m.lines + value_lines(f, key@, *val));
            }
        } else {
            let text = self.stringify(val);
            self.set(key, text.as_str());
            assert(self@.lines =~= m.lines + value_lines(f, key@, *val));
        }
    }

    /// The text of one value.
    fn stringify(&self, val: &TomlValue) -> (s: String)
        ensures
            s@ == self@.format().text(*val),
        decreases val,
    {
        let ghost t = bool_text(self@.bool_style, true);
        let ghost fl = bool_text(self@.bool_style, false);
        let ghost sep = self@.sequence_separator;
        match val {
            TomlValue::String(s) => {
                let r = s.clone();
                assert(r@ == self@.format().text(*val));
                r
            },
            TomlValue::Integer(i) => i64_to_decimal(*i),
            TomlValue::Float(f) => {
                let r = f.clone();
                r
            },
            TomlValue::Boolean(b) => {
                let w = bool_word(self.bool_style, *b);
                let r = w.to_string();
                assert(r@ == self@.format().text(*val));
                r
            },
            TomlValue::Datetime(d) => {
                let r = d.clone();
                r
            },
            TomlValue::Array(arr) => {
                let mut parts: Vec<String> = Vec::new();
                let mut i: usize = 0;
                while i < arr.len()
                    invariant
                        i <= arr@.len(),
                        *val == TomlValue::Array(*arr),
                        t == bool_text(self@.bool_style, true),
                        fl == bool_text(self@.bool_style, false),
                        sep == self@.sequence_separator,
                        views(parts@) == render_items(arr@.take(i as int), t, fl, sep),
                    decreases arr.len() - i,
                {
                    proof {
                        crate::toml_value::lemma_item_decreases(*val, i as int);
                    }
                    let x = self.stringify(&arr[i]);
                    proof {
                        lemma_views_push(parts@, x);
                    }
                    parts.push(x);
                    assert(arr@.take(i + 1).drop_last() =~= arr@.take(i as int));
                    assert(arr@.take(i + 1).last() == arr@[i as int]);
                    i = i + 1;
                }
                assert(arr@.take(arr@.len() as int) =~= arr@);
                join(&parts, self.sequence_separator.as_str())
            },
            TomlValue::Table(table) => {
                let es = table.entries();
                let mut parts: Vec<String> = Vec::new();
                let mut i: usize = 0;
                proof {
                    reveal_strlit("'");
                    reveal_strlit("=");
                    reveal_strlit(" ");
                    assert("'"@ =~= seq!['\'']);
                    assert("="@ =~= seq!['=']);
                    assert(" "@ =~= seq![' ']);
                }
                while i < es.len()
                    invariant
                        i <= es@.len(),
                        es@ == table@,
                        *val == TomlValue::Table(*table),
                        t == bool_text(self@.bool_style, true),
                        fl == bool_text(self@.bool_style, false),
                        sep == self@.sequence_separator,
                        views(parts@) == render_pairs(es@.take(i as int), t, fl, sep),
                    decreases es.len() - i,
                {
                    proof {
                        crate::toml_value::lemma_entry_decreases(*val, i as int);
                    }
                    proof {
                        reveal_strlit("'");
                        reveal_strlit("=");
                    }
                    let mut word = "'".to_string();
                    word.append(es[i].0.as_str());
                    word.append("=");
                    let x = self.stringify(&es[i].1);
                    word.append(x.as_str());
                    word.append("'");
                    assert(word@ =~= seq!['\''] + es@[i as int].0@ + seq!['='] + render_value(es@[i as int].1, t, fl, sep)
                        + seq!['\'']);
                    proof {
                        lemma_views_push(parts@, word);
                    }
                    parts.push(word);
                    assert(es@.take(i + 1).drop_last() =~= es@.take(i as int));
                    assert(es@.take(i + 1).last() == es@[i as int]);
                    assert(views(parts@) =~= render_pairs(es@.take(i + 1), t, fl, sep));
                    i = i + 1;
                }
                assert(es@.take(es@.len() as int) =~= es@);
                join(&parts, " ")
            },
        }
    }

    /// Indents the following settings one level further.
    pub fn indent(&mut self) -> (r: &mut Self)
        requires
            old(self)@.indent_level < usize::MAX,
        ensures
            (*r)@ == old(self)@.indented(),
            (*r)@.indent_width == 4,
            *final(self) == *final(r),
    {
        proof {
            use_type_invariant(&*self);
        }
        self.indent_level = self.indent_level + 1;
        self
    }

    /// Indents the following settings one level less, down to none.
    pub fn outdent(&mut self) -> (r: &mut Self)
        ensures
            (*r)@ == old(self)@.outdented(),
            (*r)@.indent_width == 4,
            *final(self) == *final(r),
    {
        proof {
            use_type_invariant(&*self);
        }
        if self.indent_level > 0 {
            self.indent_level = self.indent_level - 1;
        } else {
            self.indent_level = 0;
        }
        self
    }

    /// Adds an empty line.
    pub fn empty_line(&mut self) -> (r: &mut Self)
        ensures
            (*r)@ == old(self)@.with_lines(old(self)@.lines.push(Seq::empty())),
            *final(self) == *final(r),
    {
        let e = String::new();
        self.add_line(e);
        self
    }

    /// The text: the lines joined by newlines.
    pub fn build(&self) -> (s: String)
        ensures
            s@ == spec_join(self@.lines, seq!['\n']),
    {
        proof {
            reveal_strlit("\n");
        }
        assert("\n"@ =~= seq!['\n']);
        join(&self.lines, "\n")
    }

    /// The lines written so far.
    pub fn lines(&self) -> (v: Vec<String>)
        ensures
            views(v@) == self@.lines,
    {
        let mut v: Vec<String> = Vec::new();
        let mut i: usize = 0;
        while i < self.lines.len()
            invariant
                i <= self.lines@.len(),
                views(v@) == views(self.lines@).take(i as int),
            decreases self.lines.len() - i,
        {
            let l = self.lines[i].clone();
            proof {
                lemma_views_push(v@, l);
            }
            v.push(l);
            i = i + 1;
            assert(views(v@) =~= views(self.lines@).take(i as int));
        }
        assert(views(self.lines@).take(self.lines@.len() as int) =~= views(self.lines@));
        v
    }

    /// Adds a line as it is.
    pub fn push_line(&mut self, line: &str) -> (r: &mut Self)
        ensures
            (*r)@ == old(self)@.with_lines(old(self)@.lines.push(line@)),
            *final(self) == *final(r),
    {
        let l = line.to_string();
        self.add_line(l);
        self
    }
}

} // verus!
