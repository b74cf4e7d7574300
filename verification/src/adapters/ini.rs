//! Writes INI files: `[section]` headings, each followed by `key=value` settings.

use vstd::prelude::*;

use crate::adapters::key_value::{table_lines, BoolStyle, KeyValueAdapter, KvFormat, lemma_views_push};
use crate::adapters::AdapterError;
use crate::text::{join, spec_join, views};
use crate::toml_value::TomlTable;

verus! {

/// A writer of INI files.
pub struct IniAdapter {
    lines: Vec<String>,
    spaced: bool,
}

/// What an INI writer holds: the lines so far, and whether `=` has spaces around it.
pub struct IniModel {
    pub lines: Seq<Seq<char>>,
    pub spaced: bool,
}

impl View for IniAdapter {
    type V = IniModel;

    closed spec fn view(&self) -> IniModel {
        IniModel { lines: views(self.lines@), spaced: self.spaced }
    }
}

/// The separator between key and value.
pub open spec fn ini_separator(spaced: bool) -> Seq<char> {
    if spaced { seq![' ', '=', ' '] } else { seq!['='] }
}

/// How settings of a section are written: booleans as `true`/`false`, array items joined by commas.
pub open spec fn ini_format(spaced: bool) -> KvFormat {
    KvFormat { separator: ini_separator(spaced), bool_style: BoolStyle::TrueFalse, indent: 0, sequence_separator: seq![','] }
}

/// The lines of a section: heading, settings, an empty line; none for an empty table.
pub open spec fn section_lines(spaced: bool, heading: Seq<char>, content: Option<TomlTable>) -> Seq<Seq<char>> {
    match content {
        Some(t) => if t@.len() == 0 {
            Seq::empty()
        } else {
            seq![seq!['['] + heading + seq![']']] + table_lines(ini_format(spaced), t@) + seq![Seq::<char>::empty()]
        },
        None => Seq::empty(),
    }
}

impl IniAdapter {
    /// A writer with no line yet and `=` without spaces.
    #[allow(clippy::new_without_default)]
    pub fn new() -> (r: Self)
        ensures
            r@.lines.len() == 0,
            !r@.spaced,
    {
        let r = IniAdapter { lines: Vec::new(), spaced: false };
        assert(r@.lines =~= Seq::<Seq<char>>::empty());
        r
    }

    /// Whether settings are written `key = value` rather than `key=value`.
    pub fn spaces_around_equals(&mut self, spaced: bool) -> (r: &mut Self)
        ensures
            (*r)@ == (IniModel { spaced, ..old(self)@ }),
            *final(self) == *final(r),
    {
        self.spaced = spaced;
        self
    }

    /// Adds a line as it is.
    pub fn push_line(&mut self, line: &str) -> (r: &mut Self)
        ensures
            (*r)@ == (IniModel { lines: old(self)@.lines.push(line@), ..old(self)@ }),
            *final(self) == *final(r),
    {
        let l = line.to_string();
        proof {
            lemma_views_push(self.lines@, l);
        }
        self.lines.push(l);
        self
    }

    /// Adds the section `heading` with the settings of `content`; nothing when there is no
    /// content (it could not be made a table) or the table is empty.
    pub fn section(&mut self, heading: &str, content: Option<&TomlTable>) -> (r: Result<&mut Self, AdapterError>)
        ensures
            r matches Ok(a) && (*a)@ == (IniModel {
                lines: old(self)@.lines + section_lines(old(self)@.spaced, heading@, match content {
                    Some(t) => Some(*t),
                    None => None,
                }),
                ..old(self)@
            }) && *final(self) == *final(a),
    {
        let ghost before = self@;
        proof {
            reveal_strlit("=");
            reveal_strlit(" = ");
            reveal_strlit("#");
            reveal_strlit(",");
            reveal_strlit("[");
            reveal_strlit("]");
            assert(","@ =~= seq![',']);
            assert("="@ =~= seq!['=']);
            assert(" = "@ =~= seq![' ', '=', ' ']);
            assert("["@ =~= seq!['[']);
            assert("]"@ =~= seq![']']);
        }
        if let Some(table) = content {
            let separator = if self.spaced { " = " } else { "=" };
            let mut adapter = KeyValueAdapter::new(separator, "#").sequence_separator(",");
            assert(adapter@.separator =~= ini_separator(self.spaced));
            assert(adapter@.sequence_separator =~= seq![',']);
            assert(adapter@.indent_level * adapter@.indent_width == 0) by (nonlinear_arith)
                requires
                    adapter@.indent_level == 0,
            ;
            assert(adapter@.format() =~= ini_format(self.spaced));
            match adapter.parse_struct(table) {
                Ok(_) => {
                    let mut heading_line = "[".to_string();
                    heading_line.append(heading);
                    heading_line.append("]");
                    assert(heading_line@ =~= seq!['['] + heading@ + seq![']']);
                    proof {
                        lemma_views_push(self.lines@, heading_line);
                    }
                    self.lines.push(heading_line);
                    adapter.empty_line();
                    let mut body = adapter.lines();
                    assert(views(body@) =~= table_lines(ini_format(before.spaced), table@) + seq![Seq::<char>::empty()]);
                    let ghost mid = self.lines@;
                    let ghost b = body@;
                    self.lines.append(&mut body);
                    proof {
                        crate::text::lemma_views_add(mid, b);
                    }
                    assert(views(self.lines@) =~= views(mid) + table_lines(ini_format(before.spaced), table@) + seq![Seq::<char>::empty()]);
                    assert(self@.lines =~= before.lines + section_lines(before.spaced, heading@, Some(*table)));
                },
                Err(_) => {
                    assert(section_lines(before.spaced, heading@, Some(*table)) =~= Seq::<Seq<char>>::empty());
                    assert(self@.lines =~= before.lines + Seq::<Seq<char>>::empty());
                },
            }
        } else {
            assert(self@.lines =~= before.lines + Seq::<Seq<char>>::empty());
        }
        Ok(self)
    }

    /// The text: the lines joined by newlines.
    pub fn build(&self) -> (s: String)
        ensures
            s@ == spec_join(self@.lines, seq!['\n']),
    {
        proof {
            reveal_strlit("\n");
        }
        assert("\n"@ =~= seq!['\n']);
        join(&self.lines, "\n")
    }
}

} // verus!
