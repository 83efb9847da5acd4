//! Reading what the service control program prints.
use vstd::prelude::*;

verus! {

/// `String::from_utf8` gives the text whose UTF-8 encoding the bytes are, and
/// fails exactly where the bytes are no UTF-8.
#[verifier::external_body]
fn text_from_utf8(bytes: Vec<u8>) -> (text: Option<String>)
    ensures
        text is Some <==> vstd::utf8::valid_utf8(bytes@),
        text matches Some(read) ==> vstd::utf8::encode_utf8(read@) == bytes@,
{
    String::from_utf8(bytes).ok()
}

/// What `String::from_utf8_lossy` makes of bytes: their text, with a
/// replacement character for what is no UTF-8.
pub uninterp spec fn lossy_text(bytes: Seq<u8>) -> Seq<char>;

/// `String::from_utf8_lossy` gives a text that depends on the bytes alone.
#[verifier::external_body]
fn text_from_utf8_lossy(bytes: &Vec<u8>) -> (text: String)
    ensures
        text@ == lossy_text(bytes@),
{
    String::from_utf8_lossy(bytes).into_owned()
}

/// Whether a byte is an ASCII space, tab, line feed, form feed or carriage
/// return.
#[verifier::allow_in_spec]
pub fn is_ascii_space(byte: u8) -> (space: bool)
    returns
        (byte == 32 || byte == 9 || byte == 10 || byte == 12 || byte == 13),
{
    byte == 32 || byte == 9 || byte == 10 || byte == 12 || byte == 13
}

/// The bytes without ASCII white space at their two ends.
pub open spec fn trimmed(bytes: Seq<u8>) -> Seq<u8>
    decreases bytes.len(),
{
    if bytes.len() == 0 {
        bytes
    } else if is_ascii_space(bytes[0]) {
        trimmed(bytes.drop_first())
    } else if is_ascii_space(bytes.last()) {
        trimmed(bytes.drop_last())
    } else {
        bytes
    }
}

/// The bytes from `from` up to `to`.
fn part_of(bytes: &Vec<u8>, from: usize, to: usize) -> (part: Vec<u8>)
    requires
        from <= to <= bytes.len(),
    ensures
        part@ == bytes@.subrange(from as int, to as int),
{
    let mut part: Vec<u8> = Vec::new();
    let mut at: usize = from;
    while at < to
        invariant
            from <= at <= to <= bytes.len(),
            part@ == bytes@.subrange(from as int, at as int),
        decreases to - at,
    {
        part.push(bytes[at]);
        proof {
            assert(bytes@.subrange(from as int, at + 1) =~= bytes@.subrange(
                from as int,
                at as int,
            ).push(bytes@[at as int]));
        }
        at = at + 1;
    }
    part
}

/// Removes ASCII white space at both ends.
pub fn trim_ascii(bytes: &Vec<u8>) -> (part: Vec<u8>)
    ensures
        part@ == trimmed(bytes@),
{
    let mut from: usize = 0;
    let mut to: usize = bytes.len();
    proof {
        assert(bytes@.subrange(0, bytes@.len() as int) =~= bytes@);
    }
    while from < to && is_ascii_space(bytes[from])
        invariant
            from <= to == bytes.len(),
            trimmed(bytes@) == trimmed(bytes@.subrange(from as int, to as int)),
        decreases to - from,
    {
        proof {
            let now = bytes@.subrange(from as int, to as int);
            assert(now[0] == bytes@[from as int]);
            assert(now.drop_first() =~= bytes@.subrange(from + 1, to as int));
        }
        from = from + 1;
    }
    while from < to && is_ascii_space(bytes[to - 1])
        invariant
            from <= to <= bytes.len(),
            from < to ==> !is_ascii_space(bytes@[from as int]),
            trimmed(bytes@) == trimmed(bytes@.subrange(from as int, to as int)),
        decreases to,
    {
        proof {
            let now = bytes@.subrange(from as int, to as int);
            assert(now[0] == bytes@[from as int]);
            assert(now.last() == bytes@[to - 1]);
            assert(now.drop_last() =~= bytes@.subrange(from as int, to - 1));
        }
        to = to - 1;
    }
    proof {
        let now = bytes@.subrange(from as int, to as int);
        if from < to {
            assert(now[0] == bytes@[from as int]);
            assert(now.last() == bytes@[to - 1]);
        }
    }
    part_of(bytes, from, to)
}

/// The pieces between line feeds.
pub open spec fn lines_of(output: Seq<u8>) -> Seq<Seq<u8>>
    decreases output.len(),
{
    if output.len() == 0 {
        seq![Seq::empty()]
    } else {
        let before = lines_of(output.drop_last());
        if output.last() == 10 {
            before.push(Seq::empty())
        } else {
            before.drop_last().push(before.last().push(output.last()))
        }
    }
}

/// The pieces as sequences.
pub open spec fn contents(lines: Seq<Vec<u8>>) -> Seq<Seq<u8>> {
    lines.map_values(|line: Vec<u8>| line@)
}

fn split_lines(output: &Vec<u8>) -> (lines: Vec<Vec<u8>>)
    ensures
        contents(lines@) == lines_of(output@),
{
    let mut done: Vec<Vec<u8>> = Vec::new();
    let mut line: Vec<u8> = Vec::new();
    let mut at: usize = 0;
    proof {
        assert(output@.take(0) =~= Seq::<u8>::empty());
        assert(contents(done@).push(line@) =~= lines_of(output@.take(0)));
    }
    while at < output.len()
        invariant
            at <= output.len(),
            contents(done@).push(line@) == lines_of(output@.take(at as int)),
        decreases output.len() - at,
    {
        let byte: u8 = output[at];
        let ghost before = contents(done@);
        let ghost open = line@;
        proof {
            assert(output@.take(at + 1).drop_last() =~= output@.take(at as int));
            assert(output@.take(at + 1).last() == byte);
            assert(before.push(open).drop_last() =~= before);
            assert(before.push(open).last() == open);
        }
        if byte == 10 {
            done.push(line);
            line = Vec::new();
            proof {
                assert(contents(done@) =~= before.push(open));
                assert(contents(done@).push(line@) =~= lines_of(output@.take(at + 1)));
            }
        } else {
            line.push(byte);
            proof {
                assert(contents(done@).push(line@) =~= lines_of(output@.take(at + 1)));
            }
        }
        at = at + 1;
    }
    let ghost before = contents(done@);
    let ghost open = line@;
    done.push(line);
    proof {
        assert(output@.take(at as int) =~= output@);
        assert(contents(done@) =~= before.push(open));
    }
    done
}

/// Whether a line is one of the program's own.
pub open spec fn is_notice(line: Seq<u8>) -> bool {
    line.len() >= 4 && line[0] == 91 && line[1] == 83 && line[2] == 67 && line[3] == 93
}

/// The place of the first colon from `from` on, or the length.
pub open spec fn colon_at(line: Seq<u8>, from: int) -> int
    decreases line.len() - from,
{
    if from < 0 || from >= line.len() {
        line.len() as int
    } else if line[from] == 58 {
        from
    } else {
        colon_at(line, from + 1)
    }
}

/// What stands behind the first colon of a line that is not one of the
/// program's own, if it is UTF-8.
pub open spec fn value_in(line: Seq<u8>) -> Option<Seq<u8>> {
    let line = trimmed(line);
    let colon = colon_at(line, 0);
    if is_notice(line) || colon >= line.len() {
        None
    } else {
        let value = trimmed(line.subrange(colon + 1, line.len() as int));
        if vstd::utf8::valid_utf8(value) {
            Some(value)
        } else {
            None
        }
    }
}

/// The values of the lines that have one.
pub open spec fn values_in(lines: Seq<Seq<u8>>) -> Seq<Seq<u8>>
    decreases lines.len(),
{
    if lines.len() == 0 {
        Seq::empty()
    } else {
        let before = values_in(lines.drop_last());
        match value_in(lines.last()) {
            Some(value) => before.push(value),
            None => before,
        }
    }
}

fn find_value(line: &Vec<u8>) -> (value: Option<String>)
    ensures
        value is Some == value_in(line@) is Some,
        value matches Some(text) ==> vstd::utf8::encode_utf8(text@) == value_in(line@)->0,
{
    let line = trim_ascii(line);
    if line.len() >= 4 && line[0] == 91 && line[1] == 83 && line[2] == 67 && line[3] == 93 {
        return None;
    }
    let mut colon: usize = 0;
    while colon < line.len() && line[colon] != 58
        invariant
            colon <= line.len(),
            colon_at(line@, 0) == colon_at(line@, colon as int),
        decreases line.len() - colon,
    {
        colon = colon + 1;
    }
    if colon >= line.len() {
        return None;
    }
    text_from_utf8(trim_ascii(&part_of(&line, colon + 1, line.len())))
}

/// The description of a service: the last of at least two values.
pub open spec fn description_in(output: Seq<u8>) -> Option<Seq<u8>> {
    let values = values_in(lines_of(output));
    if values.len() < 2 {
        None
    } else {
        Some(values.last())
    }
}

/// Reads the description of a service.
pub fn parse_sc_description(output: &Vec<u8>) -> (description: Option<String>)
    ensures
        description is Some == description_in(output@) is Some,
        description matches Some(text) ==> vstd::utf8::encode_utf8(text@) == description_in(
            output@,
        )->0,
{
    let lines = split_lines(output);
    let ghost all = contents(lines@);
    let mut count: usize = 0;
    let mut last: Option<String> = None;
    let mut at: usize = 0;
    while at < lines.len()
        invariant
            at <= lines.len(),
            all == contents(lines@),
            count <= at,
            count == values_in(all.take(at as int)).len(),
            count > 0 ==> last is Some && vstd::utf8::encode_utf8((last->0)@) == values_in(
                all.take(at as int),
            ).last(),
        decreases lines.len() - at,
    {
        proof {
            assert(all.take(at + 1).drop_last() =~= all.take(at as int));
            assert(all.take(at + 1).last() == lines@[at as int]@);
        }
        if let Some(value) = find_value(&lines[at]) {
            last = Some(value);
            count = count + 1;
        }
        at = at + 1;
    }
    proof {
        assert(all.take(at as int) =~= all);
    }
    if count < 2 {
        return None;
    }
    last
}

/// Whether the bytes `D:` occur.
pub open spec fn has_dacl(line: Seq<u8>) -> bool {
    exists|i: int| 0 <= i < line.len() - 1 && #[trigger] line[i] == 68 && line[i + 1] == 58
}

/// Whether ASCII white space occurs.
pub open spec fn has_space(line: Seq<u8>) -> bool {
    exists|i: int| 0 <= i < line.len() && is_ascii_space(#[trigger] line[i])
}

/// Whether a line is a security descriptor: it has an access list, no white
/// space, and is UTF-8.
pub open spec fn is_descriptor(line: Seq<u8>) -> bool {
    has_dacl(line) && !has_space(line) && vstd::utf8::valid_utf8(line)
}

/// The last line that is a security descriptor.
pub open spec fn descriptor_in(lines: Seq<Seq<u8>>) -> Option<Seq<u8>>
    decreases lines.len(),
{
    if lines.len() == 0 {
        None
    } else if is_descriptor(trimmed(lines.last())) {
        Some(trimmed(lines.last()))
    } else {
        descriptor_in(lines.drop_last())
    }
}

fn looks_like_descriptor(line: &Vec<u8>) -> (yes: bool)
    ensures
        yes == (has_dacl(line@) && !has_space(line@)),
{
    let mut dacl = false;
    let mut at: usize = 0;
    while at < line.len()
        invariant
            at <= line.len(),
            dacl == exists|i: int|
                0 <= i < at && i < line@.len() - 1 && #[trigger] line@[i] == 68 && line@[i + 1]
                    == 58,
            forall|i: int| 0 <= i < at ==> !is_ascii_space(#[trigger] line@[i]),
        decreases line.len() - at,
    {
        if is_ascii_space(line[at]) {
            return false;
        }
        if at + 1 < line.len() && line[at] == 68 && line[at + 1] == 58 {
            dacl = true;
        }
        at = at + 1;
    }
    dacl
}

/// Reads the security descriptor of a service.
pub fn parse_sc_sddl(output: &Vec<u8>) -> (descriptor: Option<String>)
    ensures
        descriptor is Some == descriptor_in(lines_of(output@)) is Some,
        descriptor matches Some(text) ==> vstd::utf8::encode_utf8(text@) == descriptor_in(
            lines_of(output@),
        )->0,
{
    let lines = split_lines(output);
    let ghost all = contents(lines@);
    let mut at: usize = lines.len();
    proof {
        assert(all.take(at as int) =~= all);
    }
    while at > 0
        invariant
            at <= lines.len(),
            all == contents(lines@),
            all == lines_of(output@),
            descriptor_in(all) == descriptor_in(all.take(at as int)),
        decreases at,
    {
        let candidate = trim_ascii(&lines[at - 1]);
        proof {
            assert(all.take(at as int).last() == lines@[at - 1]@);
            assert(all.take(at as int).drop_last() =~= all.take(at - 1));
        }
        if looks_like_descriptor(&candidate) {
            if let Some(text) = text_from_utf8(candidate) {
                return Some(text);
            }
        }
        at = at - 1;
    }
    None
}

/// What a failed program said: the first of its two outputs that is not
/// blank.
pub open spec fn failure_words(stderr: Seq<char>, stdout: Seq<char>) -> Seq<char> {
    if crate::text::trim(stderr).len() > 0 {
        crate::text::trim(stderr)
    } else if crate::text::trim(stdout).len() > 0 {
        crate::text::trim(stdout)
    } else {
        "no diagnostic output"@
    }
}

/// Says what a failed program said.
pub fn failure_text(stderr: &str, stdout: &str) -> (text: String)
    ensures
        text@ == failure_words(stderr@, stdout@),
{
    let said = crate::text::trim_text(stderr);
    if !said.as_str().is_empty() {
        return said;
    }
    let said = crate::text::trim_text(stdout);
    if said.as_str().is_empty() {
        "no diagnostic output".to_owned()
    } else {
        said
    }
}

/// Says what a failed program said, from the bytes it wrote.
pub fn command_failure_text(stderr: &Vec<u8>, stdout: &Vec<u8>) -> (text: String)
    ensures
        text@ == failure_words(lossy_text(stderr@), lossy_text(stdout@)),
{
    let said = text_from_utf8_lossy(stderr);
    let printed = text_from_utf8_lossy(stdout);
    failure_text(said.as_str(), printed.as_str())
}

/// What is left of bytes without the white space at their ends is a part of
/// them that does not begin or end in white space, and all that is taken off
/// is white space.
pub proof fn trimming_takes_white_space_off(bytes: Seq<u8>) -> (ends: (int, int))
    ensures
        0 <= ends.0 <= ends.1 <= bytes.len(),
        trimmed(bytes) == bytes.subrange(ends.0, ends.1),
        forall|i: int| 0 <= i < ends.0 ==> is_ascii_space(#[trigger] bytes[i]),
        forall|i: int| ends.1 <= i < bytes.len() ==> is_ascii_space(#[trigger] bytes[i]),
        trimmed(bytes).len() > 0 ==> !is_ascii_space(trimmed(bytes)[0]) && !is_ascii_space(
            trimmed(bytes).last(),
        ),
    decreases bytes.len(),
{
    if bytes.len() == 0 {
        assert(bytes.subrange(0, 0) =~= bytes);
        (0, 0)
    } else if is_ascii_space(bytes[0]) {
        let back = bytes.drop_first();
        let ends = trimming_takes_white_space_off(back);
        assert(back.subrange(ends.0, ends.1) =~= bytes.subrange(ends.0 + 1, ends.1 + 1));
        assert forall|i: int| 0 <= i < ends.0 + 1 implies is_ascii_space(
            #[trigger] bytes[i],
        ) by {
            if i > 0 {
                assert(back[i - 1] == bytes[i]);
            }
        }
        assert forall|i: int| ends.1 + 1 <= i < bytes.len() implies is_ascii_space(
            #[trigger] bytes[i],
        ) by {
            assert(back[i - 1] == bytes[i]);
        }
        (ends.0 + 1, ends.1 + 1)
    } else if is_ascii_space(bytes.last()) {
        let front = bytes.drop_last();
        let ends = trimming_takes_white_space_off(front);
        assert(front.subrange(ends.0, ends.1) =~= bytes.subrange(ends.0, ends.1));
        assert forall|i: int| 0 <= i < ends.0 implies is_ascii_space(#[trigger] bytes[i]) by {
            assert(front[i] == bytes[i]);
        }
        assert forall|i: int| ends.1 <= i < bytes.len() implies is_ascii_space(
            #[trigger] bytes[i],
        ) by {
            if i < front.len() {
                assert(front[i] == bytes[i]);
            }
        }
        ends
    } else {
        assert(bytes.subrange(0, bytes.len() as int) =~= bytes);
        (0, bytes.len() as int)
    }
}

/// Lines with line feeds between them.
pub open spec fn put_together(lines: Seq<Seq<u8>>) -> Seq<u8>
    decreases lines.len(),
{
    if lines.len() == 0 {
        Seq::empty()
    } else if lines.len() == 1 {
        lines[0]
    } else {
        put_together(lines.drop_last()).push(10u8) + lines.last()
    }
}

/// An output is its lines with line feeds between them, and no line holds one.
pub proof fn outputs_are_their_lines(output: Seq<u8>)
    ensures
        lines_of(output).len() > 0,
        put_together(lines_of(output)) == output,
        forall|i: int, j: int|
            0 <= i < lines_of(output).len() && 0 <= j < lines_of(output)[i].len()
                ==> #[trigger] lines_of(output)[i][j] != 10,
    decreases output.len(),
{
    if output.len() == 0 {
        assert(put_together(lines_of(output)) =~= output);
    } else {
        let front = output.drop_last();
        let before = lines_of(front);
        let lines = lines_of(output);
        outputs_are_their_lines(front);
        assert(output =~= front.push(output.last()));
        if output.last() == 10 {
            assert(lines.drop_last() =~= before);
            assert(put_together(lines) =~= put_together(before).push(10u8));
        } else {
            let grown = before.last().push(output.last());
            assert(lines.drop_last() =~= before.drop_last());
            assert(lines.last() == grown);
            if before.len() == 1 {
                assert(lines[0] == grown);
                assert(put_together(before) == before[0]);
            } else {
                assert(put_together(lines) =~= put_together(before).push(output.last()));
            }
            assert forall|i: int, j: int| 0 <= i < lines.len() && 0 <= j < lines[i].len() implies
                #[trigger] lines[i][j] != 10 by {
                if i < before.len() - 1 {
                    assert(lines[i] == before[i]);
                    assert(before[i][j] != 10);
                } else if j < before.last().len() {
                    assert(before[before.len() - 1][j] != 10);
                }
            }
        }
        if output.last() == 10 {
            assert forall|i: int, j: int| 0 <= i < lines.len() && 0 <= j < lines[i].len() implies
                #[trigger] lines[i][j] != 10 by {
                assert(lines[i] == before[i]);
                assert(before[i][j] != 10);
            }
        }
    }
}

/// A line that names something gives its value: what stands behind its first
/// colon, without the white space round it. A line without a colon gives none,
/// and neither does a notice of the program.
pub proof fn values_stand_behind_the_first_colon(
    line: Seq<u8>,
    name: Seq<u8>,
    value: Seq<u8>,
)
    ensures
        trimmed(line) == name.push(58u8) + value && (forall|i: int|
            0 <= i < name.len() ==> #[trigger] name[i] != 58) && !is_notice(trimmed(line))
            && vstd::utf8::valid_utf8(trimmed(value)) ==> value_in(line) == Some(trimmed(value)),
        (forall|i: int| 0 <= i < trimmed(line).len() ==> #[trigger] trimmed(line)[i] != 58)
            ==> value_in(line) is None,
        is_notice(trimmed(line)) ==> value_in(line) is None,
{
    let whole = trimmed(line);
    if whole == name.push(58u8) + value && (forall|i: int|
        0 <= i < name.len() ==> #[trigger] name[i] != 58) {
        assert(whole[name.len() as int] == 58);
        assert forall|i: int| 0 <= i < name.len() implies #[trigger] whole[i] != 58 by {
            assert(whole[i] == name[i]);
        }
        the_first_colon_is_found(whole, 0, name.len() as int);
        assert(whole.subrange((name.len() + 1) as int, whole.len() as int) =~= value);
    }
    if forall|i: int| 0 <= i < whole.len() ==> #[trigger] whole[i] != 58 {
        no_colon_is_found(whole, 0);
    }
}

proof fn the_first_colon_is_found(line: Seq<u8>, from: int, at: int)
    requires
        0 <= from <= at < line.len(),
        line[at] == 58,
        forall|i: int| from <= i < at ==> #[trigger] line[i] != 58,
    ensures
        colon_at(line, from) == at,
    decreases at - from,
{
    if from < at {
        the_first_colon_is_found(line, from + 1, at);
    }
}

proof fn no_colon_is_found(line: Seq<u8>, from: int)
    requires
        0 <= from <= line.len(),
        forall|i: int| from <= i < line.len() ==> #[trigger] line[i] != 58,
    ensures
        colon_at(line, from) == line.len(),
    decreases line.len() - from,
{
    if from < line.len() {
        no_colon_is_found(line, from + 1);
    }
}

/// The description is the last value, where there are at least two: the first
/// is the name of the service. Lines without a value do not count.
pub proof fn descriptions_are_the_last_value(lines: Seq<Seq<u8>>, line: Seq<u8>, output: Seq<u8>)
    ensures
        value_in(line) is None ==> values_in(lines.push(line)) == values_in(lines),
        value_in(line) matches Some(value) ==> values_in(lines.push(line)) == values_in(
            lines,
        ).push(value),
        values_in(lines_of(output)).len() < 2 <==> description_in(output) is None,
        description_in(output) matches Some(value) ==> value == values_in(lines_of(output)).last(),
{
    assert(lines.push(line).drop_last() =~= lines);
}

/// A security descriptor is the last line that is one: it names an access list
/// and holds no white space.
pub proof fn descriptors_are_the_last_of_their_kind(lines: Seq<Seq<u8>>, line: Seq<u8>)
    ensures
        is_descriptor(trimmed(line)) ==> descriptor_in(lines.push(line)) == Some(trimmed(line)),
        !is_descriptor(trimmed(line)) ==> descriptor_in(lines.push(line)) == descriptor_in(lines),
        descriptor_in(Seq::empty()) is None,
        descriptor_in(lines) matches Some(found) ==> is_descriptor(found),
    decreases lines.len(),
{
    assert(lines.push(line).drop_last() =~= lines);
    if lines.len() > 0 {
        descriptors_are_the_last_of_their_kind(lines.drop_last(), lines.last());
    }
}

/// A line with an access list in it, without white space, is a descriptor where
/// it is text; with white space, or without an access list, none is.
pub proof fn descriptors_name_an_access_list(before: Seq<u8>, after: Seq<u8>, at: int)
    ensures
        ({
            let line = before + seq![68u8, 58u8] + after;
            &&& has_dacl(line)
            &&& !has_space(line) && vstd::utf8::valid_utf8(line) ==> is_descriptor(line)
            &&& 0 <= at < line.len() && (line[at] == 32 || line[at] == 9) ==> !is_descriptor(line)
        }),
{
    let line = before + seq![68u8, 58u8] + after;
    assert(line[before.len() as int] == 68 && line[(before.len() + 1) as int] == 58);
    if 0 <= at < line.len() && (line[at] == 32 || line[at] == 9) {
        assert(is_ascii_space(line[at]));
    }
}

/// What a program said of its failure comes first, then what it printed; where
/// both are blank, that is said. White space round it is left out.
pub proof fn failures_are_told_by_what_was_said(stderr: Seq<char>, stdout: Seq<char>)
    ensures
        crate::text::trim(stderr).len() > 0 ==> failure_words(stderr, stdout) == crate::text::trim(
            stderr,
        ),
        crate::text::trim(stderr).len() == 0 && crate::text::trim(stdout).len() > 0
            ==> failure_words(stderr, stdout) == crate::text::trim(stdout),
        crate::text::trim(stderr).len() == 0 && crate::text::trim(stdout).len() == 0
            ==> failure_words(stderr, stdout) == "no diagnostic output"@,
{
}

} // verus!
