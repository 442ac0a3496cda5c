//! The jail manager's configuration file for one jail.

use crate::errors::Failure;
use crate::maps::{conf_entries, conf_rows, row};
use crate::settings::JailConfValue;
use crate::text::{chars_of, decimal, decimal_of, text_of, views};
use indexmap::IndexMap;
use vstd::prelude::*;

verus! {

/// An option's name as the jail manager writes it: the first underscore is a
/// dot.
pub open spec fn dotted(key: Seq<char>) -> Seq<char>
    decreases key.len(),
{
    if key.len() == 0 {
        key
    } else if key.first() == '_' {
        seq!['.'] + key.drop_first()
    } else {
        seq![key.first()] + dotted(key.drop_first())
    }
}

/// A text between double quotes.
pub open spec fn in_quotes(text: Seq<char>) -> Seq<char> {
    "\""@ + text + "\""@
}

/// How a truth value is written.
pub open spec fn truth(b: bool) -> Seq<char> {
    if b {
        "true"@
    } else {
        "false"@
    }
}

/// The line that sets an option.
pub open spec fn set_line(key: Seq<char>, value: Seq<char>) -> Seq<char> {
    dotted(key) + " = "@ + value + ";"@
}

/// The line that adds a value to an option.
pub open spec fn add_line(key: Seq<char>, value: Seq<char>) -> Seq<char> {
    dotted(key) + " += "@ + value + ";"@
}

/// The lines for one option: one that sets it; for a list, one that sets it
/// to the first item and one more for each further item, and none for an
/// empty list. Texts and paths stand between double quotes.
pub open spec fn option_lines(key: Seq<char>, value: JailConfValue) -> Seq<Seq<char>> {
    match value {
        JailConfValue::String(v) => seq![set_line(key, in_quotes(v@))],
        JailConfValue::Bool(v) => seq![set_line(key, truth(v))],
        JailConfValue::Int(v) => seq![set_line(key, decimal(v as int))],
        JailConfValue::Path(v) => seq![set_line(key, in_quotes(v@))],
        JailConfValue::Vec(v) => Seq::new(
            v@.len(),
            |i: int|
                if i == 0 {
                    set_line(key, in_quotes(v@[i]@))
                } else {
                    add_line(key, in_quotes(v@[i]@))
                },
        ),
    }
}

/// The lines for a row of options, in the row's order.
pub open spec fn all_lines(entries: Seq<(Seq<char>, JailConfValue)>) -> Seq<Seq<char>>
    decreases entries.len(),
{
    if entries.len() == 0 {
        Seq::empty()
    } else {
        all_lines(entries.drop_last()) + option_lines(entries.last().0, entries.last().1)
    }
}

/// The lines one below the other, each behind the indent and ended by a line
/// feed.
pub open spec fn block(lines: Seq<Seq<char>>, indent: Seq<char>) -> Seq<char>
    decreases lines.len(),
{
    if lines.len() == 0 {
        Seq::empty()
    } else {
        block(lines.drop_last(), indent) + indent + lines.last() + "\n"@
    }
}

/// The file: the lines that hold for every jail, an empty line, and the
/// jail's block, in which the computed lines come before the declared ones.
pub open spec fn file(
    name: Seq<char>,
    defaults: Seq<Seq<char>>,
    conf: Seq<Seq<char>>,
    extra_conf: Seq<Seq<char>>,
) -> Seq<char> {
    block(defaults, Seq::empty()) + "\n"@ + name + " {\n"@ + block(extra_conf, "    "@) + block(
        conf,
        "    "@,
    ) + "}\n"@
}

/// The configuration of one jail, line by line.
pub struct JailConf {
    name: String,
    defaults: Vec<String>,
    conf: Vec<String>,
    extra_conf: Vec<String>,
}

/// If no underscore stands before position `j`, the name is dotted from there.
proof fn lemma_dotted(key: Seq<char>, j: int)
    requires
        0 <= j <= key.len(),
        forall|k: int| 0 <= k < j ==> key[k] != '_',
    ensures
        dotted(key) == key.take(j) + dotted(key.skip(j)),
    decreases j,
{
    if j == 0 {
        assert(key.skip(0) == key);
        assert(key.take(0) + dotted(key) == dotted(key));
    } else {
        let rest = key.drop_first();
        assert forall|k: int| 0 <= k < j - 1 implies rest[k] != '_' by {
            assert(rest[k] == key[k + 1]);
        }
        lemma_dotted(rest, j - 1);
        assert(rest.skip(j - 1) == key.skip(j));
        assert(seq![key.first()] + (rest.take(j - 1) + dotted(key.skip(j))) == key.take(j)
            + dotted(key.skip(j)));
    }
}

/// Appends `text` to `s`.
fn push_all(s: &mut String, text: &Vec<char>, from: usize)
    requires
        from <= text.len(),
    ensures
        final(s)@ == old(s)@ + text@.skip(from as int),
{
    let rest = text_of(text, from, text.len());
    assert(text@.subrange(from as int, text.len() as int) == text@.skip(from as int));
    s.append(rest.as_str());
}

/// The option's name with its first underscore turned into a dot.
pub fn dot_name(key: &str) -> (s: String)
    ensures
        s@ == dotted(key@),
{
    let x = chars_of(key);
    let mut j: usize = 0;
    while j < x.len() && x[j] != '_'
        invariant
            j <= x.len(),
            forall|k: int| 0 <= k < j ==> x@[k] != '_',
        decreases x.len() - j,
    {
        j = j + 1;
    }
    proof {
        lemma_dotted(x@, j as int);
    }
    let mut s = text_of(&x, 0, j);
    assert(x@.subrange(0, j as int) == x@.take(j as int));
    if j < x.len() {
        s.push('.');
        push_all(&mut s, &x, j + 1);
        assert(x@.skip(j as int).drop_first() == x@.skip(j + 1));
        assert(x@.take(j as int).push('.') + x@.skip(j + 1) == x@.take(j as int) + (seq!['.']
            + x@.skip(j + 1)));
    } else {
        assert(x@.skip(j as int) == Seq::<char>::empty());
        assert(x@.take(j as int) + Seq::<char>::empty() == x@.take(j as int));
    }
    s
}

fn quote(text: &str) -> (s: String)
    ensures
        s@ == in_quotes(text@),
{
    let mut s = String::from_str("\"");
    s.append(text);
    s.append("\"");
    s
}

fn line_of(key: &str, sign: &str, value: &str) -> (s: String)
    ensures
        s@ == dotted(key@) + sign@ + value@ + ";"@,
{
    let mut s = dot_name(key);
    s.append(sign);
    s.append(value);
    s.append(";");
    s
}

impl JailConf {
    /// The configuration of the jail `name`: `defaults` hold for every jail,
    /// `conf` is what the jail declares, `extra_conf` what was computed for
    /// it.
    pub fn new(
        name: &str,
        defaults: &IndexMap<String, JailConfValue>,
        conf: &IndexMap<String, JailConfValue>,
        extra_conf: &IndexMap<String, JailConfValue>,
    ) -> (r: Result<JailConf, Failure>)
        ensures
            r matches Ok(c) && c.text() == file(
                name@,
                all_lines(conf_entries(*defaults)),
                all_lines(conf_entries(*conf)),
                all_lines(conf_entries(*extra_conf)),
            ),
    {
        let defaults = Self::format_lines(defaults)?;
        let conf = Self::format_lines(conf)?;
        let extra_conf = Self::format_lines(extra_conf)?;
        Ok(JailConf { name: String::from_str(name), defaults, conf, extra_conf })
    }

    /// What the file will hold.
    pub closed spec fn text(&self) -> Seq<char> {
        file(self.name@, views(self.defaults@), views(self.conf@), views(self.extra_conf@))
    }

    /// The lines for the options of a map, in the map's order.
    pub fn format_lines(map: &IndexMap<String, JailConfValue>) -> (r: Result<Vec<String>, Failure>)
        ensures
            r matches Ok(lines) && views(lines@) == all_lines(conf_entries(*map)),
    {
        let mut lines: Vec<String> = Vec::new();
        let rows = conf_rows(map);
        let mut i: usize = 0;
        while i < rows.len()
            invariant
                i <= rows.len(),
                row(rows@) == conf_entries(*map),
                views(lines@) == all_lines(conf_entries(*map).take(i as int)),
            decreases rows.len() - i,
        {
            proof {
                let now = conf_entries(*map).take(i + 1);
                assert(now.drop_last() == conf_entries(*map).take(i as int));
                assert(now.last() == row(rows@)[i as int]);
            }
            Self::push_option(&mut lines, rows[i].0.as_str(), rows[i].1);
            i = i + 1;
        }
        assert(conf_entries(*map).take(rows.len() as int) == conf_entries(*map));
        Ok(lines)
    }

    /// Appends the lines for one option.
    fn push_option(lines: &mut Vec<String>, key: &str, value: &JailConfValue)
        ensures
            views(final(lines)@) == views(old(lines)@) + option_lines(key@, *value),
    {
        match value {
            JailConfValue::String(v) => {
                let line = line_of(key, " = ", quote(v.as_str()).as_str());
                assert(views(lines@.push(line)) == views(lines@).push(line@));
                lines.push(line);
                assert(views(old(lines)@).push(line@) == views(old(lines)@) + seq![line@]);
            },
            JailConfValue::Path(v) => {
                let line = line_of(key, " = ", quote(v.as_str()).as_str());
                assert(views(lines@.push(line)) == views(lines@).push(line@));
                lines.push(line);
                assert(views(old(lines)@).push(line@) == views(old(lines)@) + seq![line@]);
            },
            JailConfValue::Bool(v) => {
                let line = line_of(
                    key,
                    " = ",
                    if *v {
                        "true"
                    } else {
                        "false"
                    },
                );
                assert(views(lines@.push(line)) == views(lines@).push(line@));
                lines.push(line);
                assert(views(old(lines)@).push(line@) == views(old(lines)@) + seq![line@]);
            },
            JailConfValue::Int(v) => {
                let line = line_of(key, " = ", decimal_of(*v as i64).as_str());
                assert(views(lines@.push(line)) == views(lines@).push(line@));
                lines.push(line);
                assert(views(old(lines)@).push(line@) == views(old(lines)@) + seq![line@]);
            },
            JailConfValue::Vec(v) => {
                let mut i: usize = 0;
                assert(views(lines@) + option_lines(key@, *value).take(0) == views(lines@));
                while i < v.len()
                    invariant
                        i <= v.len(),
                        *value == JailConfValue::Vec(*v),
                        views(lines@) == views(old(lines)@) + option_lines(key@, *value).take(
                            i as int,
                        ),
                    decreases v.len() - i,
                {
                    let line = line_of(
                        key,
                        if i == 0 {
                            " = "
                        } else {
                            " += "
                        },
                        quote(v[i].as_str()).as_str(),
                    );
                    assert(line@ == option_lines(key@, *value)[i as int]);
                    assert(views(lines@.push(line)) == views(lines@).push(line@));
                    assert((views(old(lines)@) + option_lines(key@, *value).take(i as int)).push(
                        line@,
                    ) == views(old(lines)@) + option_lines(key@, *value).take(i + 1));
                    lines.push(line);
                    i = i + 1;
                }
                assert(option_lines(key@, *value).take(v.len() as int) == option_lines(
                    key@,
                    *value,
                ));
            },
        }
    }

    /// The text of the file.
    pub fn render(&self) -> (r: Result<String, Failure>)
        ensures
            r matches Ok(s) && s@ == self.text(),
    {
        let mut s = String::new();
        push_file(&mut s, self.name.as_str(), &self.defaults, &self.conf, &self.extra_conf);
        assert(Seq::<char>::empty() + self.text() == self.text());
        Ok(s)
    }
}

/// Appends the file that is made of these lines.
pub fn push_file(
    s: &mut String,
    name: &str,
    defaults: &Vec<String>,
    conf: &Vec<String>,
    extra_conf: &Vec<String>,
)
    ensures
        final(s)@ == old(s)@ + file(name@, views(defaults@), views(conf@), views(extra_conf@)),
{
    push_block(s, defaults, "");
    s.append("\n");
    s.append(name);
    s.append(" {\n");
    push_block(s, extra_conf, "    ");
    push_block(s, conf, "    ");
    s.append("}\n");
    proof {
        reveal_strlit("");
        assert(""@ == Seq::<char>::empty());
        assert(s@ == old(s)@ + file(name@, views(defaults@), views(conf@), views(extra_conf@)));
    }
}

/// Appends the lines, each behind the indent and ended by a line feed.
pub fn push_block(s: &mut String, lines: &Vec<String>, indent: &str)
    ensures
        final(s)@ == old(s)@ + block(views(lines@), indent@),
{
    let mut i: usize = 0;
    assert(old(s)@ + block(views(lines@).take(0), indent@) == old(s)@);
    while i < lines.len()
        invariant
            i <= lines.len(),
            s@ == old(s)@ + block(views(lines@).take(i as int), indent@),
        decreases lines.len() - i,
    {
        proof {
            let now = views(lines@).take(i + 1);
            assert(now.drop_last() == views(lines@).take(i as int));
            assert(now.last() == lines@[i as int]@);
        }
        let ghost before = s@;
        s.append(indent);
        s.append(lines[i].as_str());
        s.append("\n");
        assert(s@ == old(s)@ + (block(views(lines@).take(i as int), indent@) + indent@
            + lines@[i as int]@ + "\n"@));
        i = i + 1;
    }
    assert(views(lines@).take(lines.len() as int) == views(lines@));
}

} // verus!
