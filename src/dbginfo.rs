//! Debug information written by the assembler toolchain: the symbol lines
//! (`sym<ws>name="Label",...,val=0xF000,...`) give each label's address.
use vstd::prelude::*;
use vstd::string::StringExecFns;

verus! {

#[derive(Debug, Clone, Copy, PartialEq, Eq, Structural)]
pub enum ParseError {
    /// A field of a symbol line without `=`.
    MissingEquals,
    /// A `val` field that is not `0x` followed by a hexadecimal number below 0x10000.
    BadAddress,
}

/// Relies on str::chars (collected into a Vec): the characters of the string, in order.
#[verifier::external_body]
fn chars_of(s: &str) -> (r: Vec<char>)
    ensures
        r@ == s@,
{
    s.chars().collect()
}

/// Relies on String's FromIterator<char>: the string of the characters from `x` to `y`, in
/// order.
#[verifier::external_body]
fn string_of(cs: &Vec<char>, x: usize, y: usize) -> (r: String)
    requires
        x <= y <= cs@.len(),
    ensures
        r@ == cs@.subrange(x as int, y as int),
{
    cs[x..y].iter().collect()
}

/// White space within a line: ASCII blanks and the other Unicode white-space characters
/// (the line break is not one, since it ends the line).
pub open spec fn is_space(c: char) -> bool {
    c == ' ' || c == '\t' || c == '\r' || c == '\x0B' || c == '\x0C' || c == '\u{85}' || c == '\u{A0}'
        || c == '\u{1680}' || ('\u{2000}' <= c && c <= '\u{200A}') || c == '\u{2028}' || c == '\u{2029}'
        || c == '\u{202F}' || c == '\u{205F}' || c == '\u{3000}'
}

fn is_space_exec(c: char) -> (r: bool)
    ensures
        r == is_space(c),
{
    c == ' ' || c == '\t' || c == '\r' || c == '\x0B' || c == '\x0C' || c == '\u{85}' || c == '\u{A0}'
        || c == '\u{1680}' || ('\u{2000}' <= c && c <= '\u{200A}') || c == '\u{2028}' || c == '\u{2029}'
        || c == '\u{202F}' || c == '\u{205F}' || c == '\u{3000}'
}

/// The end of the line that starts at `i`: the index of the next newline, or the length.
pub open spec fn line_end(cs: Seq<char>, i: int) -> int
    decreases cs.len() - i,
{
    if i >= cs.len() || i < 0 || cs[i] == '\n' {
        i
    } else {
        line_end(cs, i + 1)
    }
}

/// The first index from `i` on, before `end`, that holds `c`; `end` if there is none.
pub open spec fn find_char(cs: Seq<char>, c: char, i: int, end: int) -> int
    decreases end - i,
{
    if i >= end || cs[i] == c {
        i
    } else {
        find_char(cs, c, i + 1, end)
    }
}

/// The first index from `i` on, before `end`, that is not whitespace.
pub open spec fn skip_spaces(cs: Seq<char>, i: int, end: int) -> int
    decreases end - i,
{
    if i < end && is_space(cs[i]) {
        skip_spaces(cs, i + 1, end)
    } else {
        i
    }
}

/// `v` without the double quotes at its start and end.
pub open spec fn trim_quotes(v: Seq<char>) -> Seq<char>
    decreases v.len(),
{
    if v.len() > 0 && v[0] == '"' {
        trim_quotes(v.drop_first())
    } else if v.len() > 0 && v.last() == '"' {
        trim_quotes(v.drop_last())
    } else {
        v
    }
}

pub open spec fn hex_digit_value(c: char) -> Option<nat> {
    if '0' <= c <= '9' {
        Some((c as nat - '0' as nat) as nat)
    } else if 'a' <= c <= 'f' {
        Some((c as nat - 'a' as nat + 10) as nat)
    } else if 'A' <= c <= 'F' {
        Some((c as nat - 'A' as nat + 10) as nat)
    } else {
        None
    }
}

/// The number that the hexadecimal digits `ds` spell, if they are all digits.
pub open spec fn hex_number(ds: Seq<char>) -> Option<nat>
    decreases ds.len(),
{
    if ds.len() == 0 {
        Some(0)
    } else {
        match (hex_number(ds.drop_last()), hex_digit_value(ds.last())) {
            (Some(h), Some(d)) => Some(h * 16 + d),
            _ => None,
        }
    }
}

/// The address that a `val` field gives: `0x` and at least one hexadecimal digit, below 0x10000.
pub open spec fn hex_address(v: Seq<char>) -> Option<u16> {
    if v.len() >= 3 && v[0] == '0' && v[1] == 'x' {
        match hex_number(v.subrange(2, v.len() as int)) {
            Some(n) => if n < 0x10000 { Some(n as u16) } else { None },
            None => None,
        }
    } else {
        None
    }
}

/// The fields `key=value,...` between `i` and `end` folded into the label (from `name`) and
/// the address (from `val`) they give, the last of each winning; other keys are ignored.
pub open spec fn fields_spec(cs: Seq<char>, i: int, end: int, label: Option<Seq<char>>, addr: Option<u16>)
    -> Result<(Option<Seq<char>>, Option<u16>), ParseError>
    decreases end - i,
{
    let p = find_char(cs, ',', i, end);
    let eq = find_char(cs, '=', i, p);
    if i > end || eq >= p {
        Err(ParseError::MissingEquals)
    } else {
        let key = cs.subrange(i, eq);
        let v = cs.subrange(eq + 1, p);
        let next: Result<(Option<Seq<char>>, Option<u16>), ParseError> = if key == seq!['n', 'a', 'm', 'e'] {
            Ok((Some(trim_quotes(v)), addr))
        } else if key == seq!['v', 'a', 'l'] {
            match hex_address(v) {
                Some(a) => Ok((label, Some(a))),
                None => Err(ParseError::BadAddress),
            }
        } else {
            Ok((label, addr))
        };
        match next {
            Err(e) => Err(e),
            Ok((l, a)) => if p >= end { Ok((l, a)) } else { fields_spec(cs, p + 1, end, l, a) },
        }
    }
}

/// Whether the line from `i` to `end` is a symbol line: the keyword `sym` and whitespace.
pub open spec fn is_sym_line(cs: Seq<char>, i: int, end: int) -> bool {
    end - i >= 4 && cs[i] == 's' && cs[i + 1] == 'y' && cs[i + 2] == 'm' && is_space(cs[i + 3])
}

/// The symbol that the line from `i` to `end` defines, if it is a symbol line with both a
/// name and an address.
pub open spec fn line_spec(cs: Seq<char>, i: int, end: int) -> Result<Option<(Seq<char>, u16)>, ParseError> {
    if is_sym_line(cs, i, end) {
        match fields_spec(cs, skip_spaces(cs, i + 3, end), end, None, None) {
            Err(e) => Err(e),
            Ok((Some(l), Some(a))) => Ok(Some((l, a))),
            Ok(_) => Ok(None),
        }
    } else {
        Ok(None)
    }
}

/// The symbols of the lines from `i` on, in order, or the error of the first bad line.
pub open spec fn symbols_from(cs: Seq<char>, i: int) -> Result<Seq<(Seq<char>, u16)>, ParseError>
    decreases cs.len() - i,
{
    if i >= cs.len() || i < 0 {
        Ok(seq![])
    } else {
        let e = line_end(cs, i);
        if e < i {
            Ok(seq![])
        } else {
        match line_spec(cs, i, e) {
            Err(err) => Err(err),
            Ok(sym) => match (if e + 1 < cs.len() { symbols_from(cs, e + 1) } else { Ok(seq![]) }) {
                Err(err) => Err(err),
                Ok(rest) => Ok(match sym {
                    Some(s) => seq![s] + rest,
                    None => rest,
                }),
            },
        }
        }
    }
}

/// The address of the last symbol named `name`.
pub open spec fn last_addr(syms: Seq<(Seq<char>, u16)>, name: Seq<char>) -> Option<u16>
    decreases syms.len(),
{
    if syms.len() == 0 {
        None
    } else if syms.last().0 == name {
        Some(syms.last().1)
    } else {
        last_addr(syms.drop_last(), name)
    }
}

/// The name of the last symbol at `addr`.
pub open spec fn last_label(syms: Seq<(Seq<char>, u16)>, addr: u16) -> Option<Seq<char>>
    decreases syms.len(),
{
    if syms.len() == 0 {
        None
    } else if syms.last().1 == addr {
        Some(syms.last().0)
    } else {
        last_label(syms.drop_last(), addr)
    }
}

/// Symbols by name and by address.
pub struct Info {
    symbols: Vec<(String, u16)>,
}

impl Info {
    /// The symbols in the order of their lines.
    pub closed spec fn symbols(&self) -> Seq<(Seq<char>, u16)> {
        self.symbols@.map_values(|e: (String, u16)| (e.0@, e.1))
    }

    /// The address of the label `name`, if there is a symbol of that name.
    pub fn addr(&self, name: &str) -> (r: Option<u16>)
        ensures
            r == last_addr(self.symbols(), name@),
    {
        let key: String = name.to_owned();
        let mut i = self.symbols.len();
        assert(self.symbols().subrange(0, i as int) =~= self.symbols());
        while i > 0
            invariant
                i <= self.symbols@.len(),
                key@ == name@,
                last_addr(self.symbols(), name@) == last_addr(self.symbols().subrange(0, i as int), name@),
            decreases i,
        {
            let ghost t = self.symbols().subrange(0, i as int);
            assert(self.symbols().len() == self.symbols@.len());
            assert(t.last() == (self.symbols@[i - 1].0@, self.symbols@[i - 1].1));
            let found = self.symbols[i - 1].0 == key;
            assert(found == (t.last().0 == name@));
            if found {
                return Some(self.symbols[i - 1].1);
            }
            assert(t.drop_last() =~= self.symbols().subrange(0, i - 1));
            i -= 1;
        }
        assert(self.symbols().subrange(0, 0) =~= Seq::<(Seq<char>, u16)>::empty());
        None
    }

    /// The label at address `addr`, if a symbol has that address.
    pub fn label(&self, addr: u16) -> (r: Option<&str>)
        ensures
            r matches Some(s) ==> last_label(self.symbols(), addr) == Some(s@),
            r is None ==> last_label(self.symbols(), addr) is None,
    {
        let mut i = self.symbols.len();
        assert(self.symbols().subrange(0, i as int) =~= self.symbols());
        while i > 0
            invariant
                i <= self.symbols@.len(),
                last_label(self.symbols(), addr) == last_label(self.symbols().subrange(0, i as int), addr),
            decreases i,
        {
            let ghost t = self.symbols().subrange(0, i as int);
            assert(self.symbols().len() == self.symbols@.len());
            assert(t.last() == (self.symbols@[i - 1].0@, self.symbols@[i - 1].1));
            if self.symbols[i - 1].1 == addr {
                return Some(self.symbols[i - 1].0.as_str());
            }
            assert(t.drop_last() =~= self.symbols().subrange(0, i - 1));
            i -= 1;
        }
        assert(self.symbols().subrange(0, 0) =~= Seq::<(Seq<char>, u16)>::empty());
        None
    }
}

fn find_char_exec(cs: &Vec<char>, c: char, i: usize, end: usize) -> (r: usize)
    requires
        i <= end <= cs@.len(),
    ensures
        r == find_char(cs@, c, i as int, end as int),
        i <= r <= end,
{
    let mut k = i;
    while k < end && cs[k] != c
        invariant
            i <= k <= end,
            end <= cs@.len(),
            find_char(cs@, c, k as int, end as int) == find_char(cs@, c, i as int, end as int),
        decreases end - k,
    {
        k += 1;
    }
    k
}

fn hex_address_exec(cs: &Vec<char>, i: usize, end: usize) -> (r: Option<u16>)
    requires
        i <= end <= cs@.len(),
    ensures
        r == hex_address(cs@.subrange(i as int, end as int)),
{
    let ghost v = cs@.subrange(i as int, end as int);
    if end - i < 3 || cs[i] != '0' || cs[i + 1] != 'x' {
        return None;
    }
    let mut n: u32 = 0;
    let mut k = i + 2;
    assert(v.subrange(2, 2) =~= Seq::<char>::empty());
    while k < end
        invariant
            i + 2 <= k <= end,
            end <= cs@.len(),
            v == cs@.subrange(i as int, end as int),
            hex_number(v.subrange(2, k - i)) == Some(n as nat),
            n < 0x10000,
        decreases end - k,
    {
        let c = cs[k];
        let ghost pre = v.subrange(2, k + 1 - i);
        assert(pre.drop_last() =~= v.subrange(2, k - i));
        assert(pre.last() == c);
        assert(v.subrange(2, v.len() as int).subrange(0, (k + 1 - i - 2) as int) =~= pre);
        let d: u32 = if '0' <= c && c <= '9' {
            c as u32 - '0' as u32
        } else if 'a' <= c && c <= 'f' {
            c as u32 - 'a' as u32 + 10
        } else if 'A' <= c && c <= 'F' {
            c as u32 - 'A' as u32 + 10
        } else {
            assert(hex_number(pre) is None);
            proof {
                lemma_hex_number_none_extends(v.subrange(2, v.len() as int), (k + 1 - i - 2) as nat);
            }
            return None;
        };
        assert(hex_digit_value(c) == Some(d as nat));
        let m = n * 16 + d;
        assert(hex_number(pre) == Some(m as nat));
        if m >= 0x10000 {
            proof {
                lemma_hex_number_grows(v.subrange(2, v.len() as int), (k + 1 - i - 2) as nat);
            }
            return None;
        }
        n = m;
        k += 1;
    }
    assert(v.subrange(2, end - i) =~= v.subrange(2, v.len() as int));
    Some(n as u16)
}

/// A prefix that is not all digits leaves the whole not all digits.
proof fn lemma_hex_number_none_extends(ds: Seq<char>, k: nat)
    requires
        k <= ds.len(),
        hex_number(ds.subrange(0, k as int)) is None,
    ensures
        hex_number(ds) is None,
    decreases ds.len() - k,
{
    if k < ds.len() {
        assert(ds.subrange(0, k as int + 1).drop_last() =~= ds.subrange(0, k as int));
        lemma_hex_number_none_extends(ds, k + 1);
    } else {
        assert(ds.subrange(0, k as int) =~= ds);
    }
}

/// The number of a prefix never exceeds the number of the whole.
proof fn lemma_hex_number_grows(ds: Seq<char>, k: nat)
    requires
        k <= ds.len(),
        hex_number(ds.subrange(0, k as int)) matches Some(n) && n >= 0x10000,
    ensures
        hex_number(ds) is None || hex_number(ds).unwrap() >= 0x10000,
    decreases ds.len() - k,
{
    if k < ds.len() {
        assert(ds.subrange(0, k as int + 1).drop_last() =~= ds.subrange(0, k as int));
        if hex_number(ds.subrange(0, k as int + 1)) is Some {
            lemma_hex_number_grows(ds, k + 1);
        } else {
            lemma_hex_number_none_extends(ds, k + 1);
        }
    } else {
        assert(ds.subrange(0, k as int) =~= ds);
    }
}

fn trim_quotes_exec(cs: &Vec<char>, i: usize, end: usize) -> (r: (usize, usize))
    requires
        i <= end <= cs@.len(),
    ensures
        i <= r.0 <= r.1 <= end,
        cs@.subrange(r.0 as int, r.1 as int) == trim_quotes(cs@.subrange(i as int, end as int)),
{
    let mut a = i;
    let mut b = end;
    while a < b && (cs[a] == '"' || cs[b - 1] == '"')
        invariant
            i <= a <= b <= end,
            end <= cs@.len(),
            trim_quotes(cs@.subrange(a as int, b as int)) == trim_quotes(cs@.subrange(i as int, end as int)),
        decreases b - a,
    {
        if cs[a] == '"' {
            assert(cs@.subrange(a as int, b as int).drop_first() =~= cs@.subrange(a + 1, b as int));
            a += 1;
        } else {
            assert(cs@.subrange(a as int, b as int).drop_last() =~= cs@.subrange(a as int, b - 1));
            b -= 1;
        }
    }
    (a, b)
}

/// The label and address that the fields between `i` and `end` give.
fn fields(cs: &Vec<char>, i: usize, end: usize) -> (r: Result<(Option<(usize, usize)>, Option<u16>), ParseError>)
    requires
        i <= end <= cs@.len(),
    ensures
        match fields_spec(cs@, i as int, end as int, None, None) {
            Err(e) => r == Err::<(Option<(usize, usize)>, Option<u16>), ParseError>(e),
            Ok((l, a)) => r matches Ok((rl, ra)) && ra == a && match rl {
                Some((x, y)) => x <= y <= cs@.len() && l == Some(cs@.subrange(x as int, y as int)),
                None => l is None,
            },
        },
{
    let mut label: Option<(usize, usize)> = None;
    let mut addr: Option<u16> = None;
    let mut k = i;
    loop
        invariant
            i <= k <= end,
            end <= cs@.len(),
            match label {
                Some((x, y)) => x <= y <= cs@.len(),
                None => true,
            },
            fields_spec(cs@, i as int, end as int, None, None) == fields_spec(cs@, k as int, end as int,
                match label { Some((x, y)) => Some(cs@.subrange(x as int, y as int)), None => None }, addr),
        decreases end - k,
    {
        let ghost lv = match label { Some((x, y)) => Some(cs@.subrange(x as int, y as int)), None => None::<Seq<char>> };
        let p = find_char_exec(cs, ',', k, end);
        let eq = find_char_exec(cs, '=', k, p);
        if eq >= p {
            return Err(ParseError::MissingEquals);
        }
        let ghost key = cs@.subrange(k as int, eq as int);
        assert(key.len() == eq - k);
        assert(forall|j: int| 0 <= j < key.len() ==> key[j] == cs@[k + j]);
        let is_name = eq - k == 4 && cs[k] == 'n' && cs[k + 1] == 'a' && cs[k + 2] == 'm' && cs[k + 3] == 'e';
        let is_val = eq - k == 3 && cs[k] == 'v' && cs[k + 1] == 'a' && cs[k + 2] == 'l';
        assert(is_name <==> key == seq!['n', 'a', 'm', 'e']) by {
            if key == seq!['n', 'a', 'm', 'e'] {
                assert(key[0] == 'n' && key[1] == 'a' && key[2] == 'm' && key[3] == 'e');
            }
            if is_name {
                assert(key =~= seq!['n', 'a', 'm', 'e']);
            }
        }
        assert(is_val <==> key == seq!['v', 'a', 'l']) by {
            if key == seq!['v', 'a', 'l'] {
                assert(key[0] == 'v' && key[1] == 'a' && key[2] == 'l');
            }
            if is_val {
                assert(key =~= seq!['v', 'a', 'l']);
            }
        }
        if is_name {
            let t = trim_quotes_exec(cs, eq + 1, p);
            label = Some(t);
        } else if is_val {
            match hex_address_exec(cs, eq + 1, p) {
                Some(a) => addr = Some(a),
                None => return Err(ParseError::BadAddress),
            }
        }
        if p >= end {
            return Ok((label, addr));
        }
        k = p + 1;
    }
}

/// Parses debug information: every symbol line that gives both a name and an address becomes
/// a symbol, in the order of the lines; other lines are ignored.
pub fn parse(data: &str) -> (r: Result<Info, ParseError>)
    ensures
        match symbols_from(data@, 0) {
            Ok(syms) => r matches Ok(info) && info.symbols() == syms,
            Err(e) => r == Err::<Info, ParseError>(e),
        },
{
    let cs = chars_of(data);
    let mut symbols: Vec<(String, u16)> = Vec::new();
    let mut i: usize = 0;
    assert(symbols@.map_values(|e: (String, u16)| (e.0@, e.1)) =~= Seq::<(Seq<char>, u16)>::empty());
    while i < cs.len()
        invariant
            cs@ == data@,
            i <= cs@.len(),
            symbols_from(cs@, 0) == match symbols_from(cs@, i as int) {
                Ok(rest) => Ok(symbols@.map_values(|e: (String, u16)| (e.0@, e.1)) + rest),
                Err(e) => Err::<Seq<(Seq<char>, u16)>, ParseError>(e),
            },
        decreases cs@.len() - i,
    {
        let ghost before = symbols@.map_values(|e: (String, u16)| (e.0@, e.1));
        let mut e = i;
        while e < cs.len() && cs[e] != '\n'
            invariant
                i <= e <= cs@.len(),
                line_end(cs@, e as int) == line_end(cs@, i as int),
            decreases cs@.len() - e,
        {
            e += 1;
        }
        assert(e == line_end(cs@, i as int));
        let sym = e - i >= 4 && cs[i] == 's' && cs[i + 1] == 'y' && cs[i + 2] == 'm' && is_space_exec(cs[i + 3]);
        assert(sym == is_sym_line(cs@, i as int, e as int));
        let ghost found: Option<(Seq<char>, u16)> = None;
        if sym {
            let mut j = i + 3;
            while j < e && is_space_exec(cs[j])
                invariant
                    i + 3 <= j <= e,
                    e <= cs@.len(),
                    skip_spaces(cs@, j as int, e as int) == skip_spaces(cs@, i + 3, e as int),
                decreases e - j,
            {
                j += 1;
            }
            assert(j == skip_spaces(cs@, i + 3, e as int));
            match fields(&cs, j, e) {
                Err(err) => {
                    assert(line_spec(cs@, i as int, e as int) == Err::<Option<(Seq<char>, u16)>, ParseError>(err));
                    return Err(err);
                },
                Ok((Some((x, y)), Some(a))) => {
                    let name = string_of(&cs, x, y);
                    symbols.push((name, a));
                    proof {
                        found = Some((cs@.subrange(x as int, y as int), a));
                    }
                    assert(symbols@.map_values(|e: (String, u16)| (e.0@, e.1)) =~= before.push((cs@.subrange(x as int, y as int), a)));
                },
                Ok(_) => {
                    assert(symbols@.map_values(|e: (String, u16)| (e.0@, e.1)) =~= before);
                },
            }
        } else {
            assert(symbols@.map_values(|e: (String, u16)| (e.0@, e.1)) =~= before);
        }
        assert(line_spec(cs@, i as int, e as int) == Ok::<Option<(Seq<char>, u16)>, ParseError>(found));
        let next = if e < cs.len() { e + 1 } else { e };
        assert(symbols_from(cs@, next as int) == symbols_from(cs@, e + 1));
        proof {
            match symbols_from(cs@, e + 1) {
                Ok(rest) => {
                    match found {
                        Some(f) => assert(before + (seq![f] + rest) =~= before.push(f) + rest),
                        None => {},
                    }
                },
                Err(_) => {},
            }
        }
        i = next;
    }
    let info = Info { symbols };
    assert(info.symbols() =~= info.symbols() + Seq::<(Seq<char>, u16)>::empty());
    Ok(info)
}

} // verus!
