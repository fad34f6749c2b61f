//! Random Chinese nicknames, filtered by gender and length.

use crate::text::{concat_str, decimal, decimal_string};
use rand::Rng;
use vstd::string::StrSliceExecFns;
use vstd::prelude::*;

verus! {

/// The gender that a nickname is chosen for.
#[derive(Copy, Clone, Debug, PartialEq, Eq)]
pub enum Gender {
    /// Male
    Male,
    /// Female
    Female,
    /// Intersex: any name qualifies.
    Intersex,
}

/// The error returned when no name meets the request.
#[derive(Debug)]
pub struct GenError(String);

impl GenError {
    /// The message of the error, as it is displayed.
    pub fn to_string(&self) -> (s: String)
        ensures
            s@ == self.message(),
    {
        self.0.clone()
    }

    pub closed spec fn message(&self) -> Seq<char> {
        self.0@
    }
}

/// Whether a table entry with gender code `code` (0 male, 1 female)
/// may be chosen for `gender`.
pub open spec fn gender_accepts(gender: Gender, code: u8) -> bool {
    match gender {
        Gender::Male => code == 0,
        Gender::Female => code == 1,
        Gender::Intersex => true,
    }
}

/// Whether a name of the given characters has the requested length;
/// a requested length of zero accepts every length.
pub open spec fn length_accepts(name: Seq<char>, len: nat) -> bool {
    len == 0 || name.len() == len
}

/// Whether the table entry `(name, code)` qualifies for the request.
pub open spec fn qualifies(entry: (Seq<char>, u8), gender: Gender, len: nat) -> bool {
    gender_accepts(gender, entry.1) && length_accepts(entry.0, len)
}

/// The names among `entries` that qualify for the request, in order.
pub open spec fn qualifying_names(entries: Seq<(Seq<char>, u8)>, gender: Gender, len: nat) -> Seq<
    Seq<char>,
>
    decreases entries.len(),
{
    if entries.len() == 0 {
        Seq::empty()
    } else {
        let rest = qualifying_names(entries.drop_last(), gender, len);
        if qualifies(entries.last(), gender, len) {
            rest.push(entries.last().0)
        } else {
            rest
        }
    }
}

/// The names of the table that qualify for the request, in table order.
pub open spec fn candidate_names(gender: Gender, len: nat) -> Seq<Seq<char>> {
    qualifying_names(name_table(), gender, len)
}

/// How `Debug` writes a gender.
pub open spec fn gender_label(gender: Gender) -> Seq<char> {
    match gender {
        Gender::Male => seq!['M', 'a', 'l', 'e'],
        Gender::Female => seq!['F', 'e', 'm', 'a', 'l', 'e'],
        Gender::Intersex => seq!['I', 'n', 't', 'e', 'r', 's', 'e', 'x'],
    }
}

/// The message of the error for a request that no name meets.
pub open spec fn no_result_message(gender: Gender, len: nat) -> Seq<char> {
    seq!['N', 'o', ' ', 'r', 'e', 's', 'u', 'l', 't', ' ', 'f', 'o', 'r', ' ']
        + gender_label(gender) + seq![':', ' ', 'l', 'e', 'n', ' '] + decimal(len)
}

/// The table of names with their gender codes (0 male, 1 female).
pub open spec fn name_table() -> Seq<(Seq<char>, u8)> {
    seq![
        (seq!['岳'], 0u8),
        (seq!['峰'], 0u8),
        (seq!['舟'], 0u8),
        (seq!['子', '轩'], 0u8),
        (seq!['浩', '然'], 0u8),
        (seq!['宇', '航'], 0u8),
        (seq!['逸', '飞', '扬'], 0u8),
        (seq!['云', '中', '鹤'], 0u8),
        (seq!['江', '上', '客'], 0u8),
        (seq!['长', '风', '破', '浪'], 0u8),
        (seq!['少', '年', '意', '气'], 0u8),
        (seq!['青', '山', '不', '改'], 0u8),
        (seq!['婉'], 1u8),
        (seq!['月'], 1u8),
        (seq!['瑶'], 1u8),
        (seq!['若', '曦'], 1u8),
        (seq!['梦', '琪'], 1u8),
        (seq!['雨', '桐'], 1u8),
        (seq!['小', '清', '新'], 1u8),
        (seq!['花', '间', '醉'], 1u8),
        (seq!['月', '下', '眠'], 1u8),
        (seq!['春', '暖', '花', '开'], 1u8),
        (seq!['岁', '月', '静', '好'], 1u8),
        (seq!['浅', '笑', '安', '然'], 1u8),
    ]
}

/// The characters and gender code of each table entry.
pub open spec fn entry_view(e: (&str, u8)) -> (Seq<char>, u8) {
    (e.0@, e.1)
}

/// The name table as executable data.
fn names() -> (t: Vec<(&'static str, u8)>)
    ensures
        t@.map_values(|e: (&'static str, u8)| entry_view(e)) == name_table(),
{
    let t = vec![
        ("岳", 0u8),
        ("峰", 0u8),
        ("舟", 0u8),
        ("子轩", 0u8),
        ("浩然", 0u8),
        ("宇航", 0u8),
        ("逸飞扬", 0u8),
        ("云中鹤", 0u8),
        ("江上客", 0u8),
        ("长风破浪", 0u8),
        ("少年意气", 0u8),
        ("青山不改", 0u8),
        ("婉", 1u8),
        ("月", 1u8),
        ("瑶", 1u8),
        ("若曦", 1u8),
        ("梦琪", 1u8),
        ("雨桐", 1u8),
        ("小清新", 1u8),
        ("花间醉", 1u8),
        ("月下眠", 1u8),
        ("春暖花开", 1u8),
        ("岁月静好", 1u8),
        ("浅笑安然", 1u8),
    ];
    proof {
        reveal_strlit("岳");
        reveal_strlit("峰");
        reveal_strlit("舟");
        reveal_strlit("子轩");
        reveal_strlit("浩然");
        reveal_strlit("宇航");
        reveal_strlit("逸飞扬");
        reveal_strlit("云中鹤");
        reveal_strlit("江上客");
        reveal_strlit("长风破浪");
        reveal_strlit("少年意气");
        reveal_strlit("青山不改");
        reveal_strlit("婉");
        reveal_strlit("月");
        reveal_strlit("瑶");
        reveal_strlit("若曦");
        reveal_strlit("梦琪");
        reveal_strlit("雨桐");
        reveal_strlit("小清新");
        reveal_strlit("花间醉");
        reveal_strlit("月下眠");
        reveal_strlit("春暖花开");
        reveal_strlit("岁月静好");
        reveal_strlit("浅笑安然");
    }
    proof {
        assert(entry_view(t@[0]) == name_table()[0]);
        assert(entry_view(t@[1]) == name_table()[1]);
        assert(entry_view(t@[2]) == name_table()[2]);
        assert(entry_view(t@[3]) == name_table()[3]);
        assert(entry_view(t@[4]) == name_table()[4]);
        assert(entry_view(t@[5]) == name_table()[5]);
        assert(entry_view(t@[6]) == name_table()[6]);
        assert(entry_view(t@[7]) == name_table()[7]);
        assert(entry_view(t@[8]) == name_table()[8]);
        assert(entry_view(t@[9]) == name_table()[9]);
        assert(entry_view(t@[10]) == name_table()[10]);
        assert(entry_view(t@[11]) == name_table()[11]);
        assert(entry_view(t@[12]) == name_table()[12]);
        assert(entry_view(t@[13]) == name_table()[13]);
        assert(entry_view(t@[14]) == name_table()[14]);
        assert(entry_view(t@[15]) == name_table()[15]);
        assert(entry_view(t@[16]) == name_table()[16]);
        assert(entry_view(t@[17]) == name_table()[17]);
        assert(entry_view(t@[18]) == name_table()[18]);
        assert(entry_view(t@[19]) == name_table()[19]);
        assert(entry_view(t@[20]) == name_table()[20]);
        assert(entry_view(t@[21]) == name_table()[21]);
        assert(entry_view(t@[22]) == name_table()[22]);
        assert(entry_view(t@[23]) == name_table()[23]);
    }
    assert(t@.map_values(|e: (&'static str, u8)| entry_view(e)) =~= name_table());
    t
}

/// Whether `name` is the name of some entry of `entries` that qualifies
/// for the request.
pub open spec fn from_qualifying_entry(
    entries: Seq<(Seq<char>, u8)>,
    gender: Gender,
    len: nat,
    name: Seq<char>,
) -> bool {
    exists|j: int| 0 <= j < entries.len() && entries[j].0 == name && qualifies(#[trigger] entries[j], gender, len)
}

/// Every name that `qualifying_names` keeps comes from an entry of
/// `entries` that qualifies.
pub proof fn lemma_qualifying_names_sound(entries: Seq<(Seq<char>, u8)>, gender: Gender, len: nat)
    ensures
        forall|i: int|
            0 <= i < qualifying_names(entries, gender, len).len() ==> from_qualifying_entry(
                entries,
                gender,
                len,
                #[trigger] qualifying_names(entries, gender, len)[i],
            ),
    decreases entries.len(),
{
    if entries.len() > 0 {
        let rest = entries.drop_last();
        lemma_qualifying_names_sound(rest, gender, len);
        let names = qualifying_names(entries, gender, len);
        let rest_names = qualifying_names(rest, gender, len);
        assert forall|i: int| 0 <= i < names.len() implies from_qualifying_entry(
            entries,
            gender,
            len,
            #[trigger] names[i],
        ) by {
            if i < rest_names.len() {
                assert(from_qualifying_entry(rest, gender, len, rest_names[i]));
                let j = choose|j: int|
                    0 <= j < rest.len() && rest[j].0 == rest_names[i] && qualifies(
                        #[trigger] rest[j],
                        gender,
                        len,
                    );
                assert(entries[j] == rest[j]);
                assert(names[i] == rest_names[i]);
            } else {
                assert(entries[entries.len() - 1] == entries.last());
            }
        }
    }
}

/// Law: every name that `random` may return for a request has the
/// requested gender (any, for `Intersex`) and, when the requested
/// length is positive, exactly that many characters.
pub proof fn lemma_candidates_meet_request(gender: Gender, len: nat, name: Seq<char>)
    requires
        candidate_names(gender, len).contains(name),
    ensures
        from_qualifying_entry(name_table(), gender, len, name),
        len > 0 ==> name.len() == len,
{
    lemma_qualifying_names_sound(name_table(), gender, len);
    let i = choose|i: int| 0 <= i < candidate_names(gender, len).len() && candidate_names(gender, len)[i] == name;
    assert(from_qualifying_entry(name_table(), gender, len, candidate_names(gender, len)[i]));
}

/// The names of the table that qualify for a request of the given
/// gender and length (zero: any length), in table order.
pub fn nickname_candidates(gender: Gender, len: usize) -> (c: Vec<&'static str>)
    ensures
        c@.map_values(|s: &'static str| s@) == candidate_names(gender, len as nat),
{
    let table = names();
    let ghost entries = table@.map_values(|e: (&'static str, u8)| entry_view(e));
    let mut c: Vec<&'static str> = Vec::new();
    let mut i: usize = 0;
    while i < table.len()
        invariant
            i <= table@.len(),
            entries == table@.map_values(|e: (&'static str, u8)| entry_view(e)),
            entries == name_table(),
            c@.map_values(|s: &'static str| s@) == qualifying_names(
                entries.take(i as int),
                gender,
                len as nat,
            ),
        decreases table.len() - i,
    {
        let (name, code) = table[i];
        let gender_ok = match gender {
            Gender::Male => code == 0,
            Gender::Female => code == 1,
            Gender::Intersex => true,
        };
        let length_ok = len == 0 || name.unicode_len() == len;
        assert(entries.take(i + 1).drop_last() =~= entries.take(i as int));
        assert(entries.take(i + 1).last() == entries[i as int]);
        if gender_ok && length_ok {
            c.push(name);
        }
        assert(c@.map_values(|s: &'static str| s@) =~= qualifying_names(
            entries.take(i + 1),
            gender,
            len as nat,
        ));
        i = i + 1;
    }
    assert(entries.take(table@.len() as int) =~= entries);
    c
}

fn gender_label_text(gender: Gender) -> (s: &'static str)
    ensures
        s@ == gender_label(gender),
{
    match gender {
        Gender::Male => {
            let s = "Male";
            proof {
                reveal_strlit("Male");
            }
            s
        },
        Gender::Female => {
            let s = "Female";
            proof {
                reveal_strlit("Female");
            }
            s
        },
        Gender::Intersex => {
            let s = "Intersex";
            proof {
                reveal_strlit("Intersex");
            }
            s
        },
    }
}

/// The error for a request of `gender` and `len` that no name meets.
pub fn no_result_error(gender: Gender, len: usize) -> (e: GenError)
    ensures
        e.message() == no_result_message(gender, len as nat),
{
    let head = "No result for ";
    let mid = ": len ";
    proof {
        reveal_strlit("No result for ");
        reveal_strlit(": len ");
    }
    let s = concat_str(head, gender_label_text(gender));
    let s = concat_str(s.as_str(), mid);
    let digits = decimal_string(len as u64);
    let s = concat_str(s.as_str(), digits.as_str());
    assert(s@ =~= no_result_message(gender, len as nat));
    GenError(s)
}

/// Draws the index of one of `items`.
///
/// Trusted: calls `rand::rng().random_range(0..items.len())`, which
/// returns a value of the half-open range of all the items' indices and
/// panics only on an empty range (ruled out by `requires`). Which index
/// comes out is left open.
#[verifier::external_body]
fn random_index(items: &Vec<&'static str>) -> (i: usize)
    requires
        items@.len() > 0,
    ensures
        i < items@.len(),
{
    rand::rng().random_range(0..items.len())
}

/// Generates a random name for `gender` with `LEN` characters (`LEN == 0`:
/// any length).
///
/// Fails exactly when no name of the table meets the request; otherwise
/// the name is one of the qualifying names, chosen at random.
pub fn random<const LEN: usize>(gender: Gender) -> (r: Result<&'static str, GenError>)
    ensures
        r is Err <==> candidate_names(gender, LEN as nat).len() == 0,
        r matches Ok(name) ==> candidate_names(gender, LEN as nat).contains(name@),
        r matches Err(e) ==> e.message() == no_result_message(gender, LEN as nat),
{
    let data = nickname_candidates(gender, LEN);
    if data.len() == 0 {
        return Err(no_result_error(gender, LEN));
    }
    let index = random_index(&data);
    let name = data[index];
    assert(data@.map_values(|s: &'static str| s@)[index as int] == name@);
    Ok(name)
}

} // verus!
