//! The register tables of the clock chips: for each chip and each frequency
//! the values to program.

use vstd::prelude::*;
use std::collections::BTreeMap;
use crate::text::same_text;
use crate::xrfclk::error::{XRFClkError, XRFClkErrorKind};
use crate::xrfclk::{chip_named, register_value, spec_register_value, Chip};

verus! {

/// The registers of one frequency as they are written down: names and
/// values as text.
pub type RawRegisters = Vec<(String, String)>;

/// The frequencies of one chip as they are written down.
pub type RawFrequencies = Vec<(u64, RawRegisters)>;

/// The tables as they are written down: chips by their names.
pub type RawConfig = Vec<(String, RawFrequencies)>;

/// One register and the value to program it with.
pub struct Register {
    pub name: String,
    pub value: u32,
}

/// The registers to program for one frequency.
pub struct FrequencyTable {
    pub frequency: u64,
    pub registers: Vec<Register>,
}

/// The frequencies that one chip can be programmed for.
pub struct ChipTable {
    pub chip: Chip,
    pub frequencies: Vec<FrequencyTable>,
}

/// The register tables of all chips.
pub struct Config {
    pub chips: Vec<ChipTable>,
}

impl View for Register {
    type V = (Seq<char>, u32);

    open spec fn view(&self) -> (Seq<char>, u32) {
        (self.name@, self.value)
    }
}

/// The registers of a table, each as its name and its value.
pub open spec fn registers_view(registers: Seq<Register>) -> Seq<(Seq<char>, u32)> {
    Seq::new(registers.len(), |i: int| registers[i]@)
}

impl View for FrequencyTable {
    type V = (u64, Seq<(Seq<char>, u32)>);

    open spec fn view(&self) -> (u64, Seq<(Seq<char>, u32)>) {
        (self.frequency, registers_view(self.registers@))
    }
}

/// The frequencies of a chip, each with its registers.
pub open spec fn frequencies_view(frequencies: Seq<FrequencyTable>) -> Seq<
    (u64, Seq<(Seq<char>, u32)>),
> {
    Seq::new(frequencies.len(), |i: int| frequencies[i]@)
}

impl View for ChipTable {
    type V = (Chip, Seq<(u64, Seq<(Seq<char>, u32)>)>);

    open spec fn view(&self) -> (Chip, Seq<(u64, Seq<(Seq<char>, u32)>)>) {
        (self.chip, frequencies_view(self.frequencies@))
    }
}

impl View for Config {
    type V = Seq<(Chip, Seq<(u64, Seq<(Seq<char>, u32)>)>)>;

    open spec fn view(&self) -> Seq<(Chip, Seq<(u64, Seq<(Seq<char>, u32)>)>)> {
        Seq::new(self.chips@.len(), |i: int| self.chips@[i]@)
    }
}

/// The registers of one frequency with their values read, in the order in
/// which they are written down. There are none where one of the values
/// cannot be read.
pub open spec fn registers_of(raw: Seq<(Seq<char>, Seq<char>)>) -> Option<Seq<(Seq<char>, u32)>>
    decreases raw.len(),
{
    if raw.len() == 0 {
        Some(Seq::empty())
    } else {
        match (registers_of(raw.drop_last()), spec_register_value(raw.last().1)) {
            (Some(registers), Some(value)) => Some(registers.push((raw.last().0, value))),
            _ => None,
        }
    }
}

/// The frequencies of one chip with the values of their registers read.
/// There are none where one of the values cannot be read.
pub open spec fn frequencies_of(raw: Seq<(u64, Seq<(Seq<char>, Seq<char>)>)>) -> Option<
    Seq<(u64, Seq<(Seq<char>, u32)>)>,
>
    decreases raw.len(),
{
    if raw.len() == 0 {
        Some(Seq::empty())
    } else {
        match (frequencies_of(raw.drop_last()), registers_of(raw.last().1)) {
            (Some(frequencies), Some(registers)) => Some(
                frequencies.push((raw.last().0, registers)),
            ),
            _ => None,
        }
    }
}

/// The tables with the names of the chips and the values of the registers
/// read. The first entry that cannot be read decides the error: a name that
/// is not the name of a chip is an invalid chip string, a value that is no
/// number an unknown error.
pub open spec fn tables_of(
    raw: Seq<(Seq<char>, Seq<(u64, Seq<(Seq<char>, Seq<char>)>)>)>,
) -> Result<Seq<(Chip, Seq<(u64, Seq<(Seq<char>, u32)>)>)>, XRFClkErrorKind>
    decreases raw.len(),
{
    if raw.len() == 0 {
        Ok(Seq::empty())
    } else {
        match tables_of(raw.drop_last()) {
            Err(kind) => Err(kind),
            Ok(tables) => match chip_named(raw.last().0) {
                None => Err(XRFClkErrorKind::InvalidChipString),
                Some(chip) => match frequencies_of(raw.last().1) {
                    None => Err(XRFClkErrorKind::UnknownError),
                    Some(frequencies) => Ok(tables.push((chip, frequencies))),
                },
            },
        }
    }
}

fn read_registers(raw: &RawRegisters) -> (registers: Option<Vec<Register>>)
    ensures
        match registers {
            Some(list) => registers_of(raw.deep_view()) == Some(registers_view(list@)),
            None => registers_of(raw.deep_view()) is None,
        },
{
    let mut list: Vec<Register> = Vec::new();
    let mut i: usize = 0;
    let ghost all = raw.deep_view();
    assert(all.take(0) == Seq::<(Seq<char>, Seq<char>)>::empty());
    assert(registers_view(list@) == Seq::<(Seq<char>, u32)>::empty());
    while i < raw.len()
        invariant
            i <= raw@.len(),
            all == raw.deep_view(),
            registers_of(all.take(i as int)) == Some(registers_view(list@)),
        decreases raw@.len() - i,
    {
        assert(all.take(i + 1).drop_last() == all.take(i as int));
        assert(all.take(i + 1).last() == (raw@[i as int].0@, raw@[i as int].1@));
        match register_value(raw[i].1.as_str()) {
            None => {
                proof {
                    if registers_of(all) is Some {
                        lemma_registers_prefix(all, i + 1);
                    }
                }
                return None;
            },
            Some(value) => {
                let ghost before = registers_view(list@);
                list.push(Register { name: raw[i].0.clone(), value });
                assert(registers_view(list@) == before.push((raw@[i as int].0@, value)));
            },
        }
        i += 1;
    }
    assert(all.take(all.len() as int) == all);
    Some(list)
}

/// Where the registers of a table can be read, so can those of each shorter
/// table from its start.
pub proof fn lemma_registers_prefix(raw: Seq<(Seq<char>, Seq<char>)>, k: int)
    requires
        0 <= k <= raw.len(),
        registers_of(raw) is Some,
    ensures
        registers_of(raw.take(k)) is Some,
    decreases raw.len(),
{
    if k == raw.len() {
        assert(raw.take(k) == raw);
    } else {
        lemma_registers_prefix(raw.drop_last(), k);
        assert(raw.drop_last().take(k) == raw.take(k));
    }
}

fn read_frequencies(raw: &RawFrequencies) -> (frequencies: Option<Vec<FrequencyTable>>)
    ensures
        match frequencies {
            Some(list) => frequencies_of(raw.deep_view()) == Some(frequencies_view(list@)),
            None => frequencies_of(raw.deep_view()) is None,
        },
{
    let mut list: Vec<FrequencyTable> = Vec::new();
    let mut i: usize = 0;
    let ghost all = raw.deep_view();
    assert(all.take(0) == Seq::<(u64, Seq<(Seq<char>, Seq<char>)>)>::empty());
    assert(frequencies_view(list@) == Seq::<(u64, Seq<(Seq<char>, u32)>)>::empty());
    while i < raw.len()
        invariant
            i <= raw@.len(),
            all == raw.deep_view(),
            frequencies_of(all.take(i as int)) == Some(frequencies_view(list@)),
        decreases raw@.len() - i,
    {
        assert(all.take(i + 1).drop_last() == all.take(i as int));
        assert(all.take(i + 1).last() == (raw@[i as int].0, raw@[i as int].1.deep_view()));
        match read_registers(&raw[i].1) {
            None => {
                proof {
                    if frequencies_of(all) is Some {
                        lemma_frequencies_prefix(all, i + 1);
                    }
                }
                return None;
            },
            Some(registers) => {
                let ghost before = frequencies_view(list@);
                let ghost added = registers_view(registers@);
                list.push(FrequencyTable { frequency: raw[i].0, registers });
                assert(frequencies_view(list@) == before.push((raw@[i as int].0, added)));
            },
        }
        i += 1;
    }
    assert(all.take(all.len() as int) == all);
    Some(list)
}

/// Where the frequencies of a chip can be read, so can those of each shorter
/// list from its start.
pub proof fn lemma_frequencies_prefix(raw: Seq<(u64, Seq<(Seq<char>, Seq<char>)>)>, k: int)
    requires
        0 <= k <= raw.len(),
        frequencies_of(raw) is Some,
    ensures
        frequencies_of(raw.take(k)) is Some,
    decreases raw.len(),
{
    if k == raw.len() {
        assert(raw.take(k) == raw);
    } else {
        lemma_frequencies_prefix(raw.drop_last(), k);
        assert(raw.drop_last().take(k) == raw.take(k));
    }
}

/// Where the tables cannot be read up to some entry, they cannot be read as
/// a whole, and for the same reason.
pub proof fn lemma_tables_prefix(
    raw: Seq<(Seq<char>, Seq<(u64, Seq<(Seq<char>, Seq<char>)>)>)>,
    k: int,
)
    requires
        0 <= k <= raw.len(),
        tables_of(raw.take(k)) is Err,
    ensures
        tables_of(raw) == tables_of(raw.take(k)),
    decreases raw.len(),
{
    if k == raw.len() {
        assert(raw.take(k) == raw);
    } else {
        assert(raw.drop_last().take(k) == raw.take(k));
        lemma_tables_prefix(raw.drop_last(), k);
    }
}

/// The error type of `serde_json`.
#[verifier::external_type_specification]
#[verifier::external_body]
pub struct ExJsonError(serde_json::Error);

/// What `serde_json` reads from a JSON text as an object of objects of
/// objects of strings, the keys of the middle objects being unsigned numbers:
/// the entries of each object in the ascending order of their keys. There is
/// nothing where the text is not such JSON.
pub uninterp spec fn json_tables(text: Seq<char>) -> Option<
    Seq<(Seq<char>, Seq<(u64, Seq<(Seq<char>, Seq<char>)>)>)>,
>;

/// Calls `serde_json::from_str` to read `text` as sorted maps of sorted maps
/// of sorted maps of strings, and lists the entries of each map in its order.
/// The contract only gives the outcome its name: the same text is always
/// read in the same way.
#[verifier::external_body]
fn parse_tables(text: &str) -> (tables: Result<RawConfig, serde_json::Error>)
    ensures
        match tables {
            Ok(raw) => json_tables(text@) == Some(raw.deep_view()),
            Err(_) => json_tables(text@) is None,
        },
{
    let maps: BTreeMap<String, BTreeMap<u64, BTreeMap<String, String>>> = serde_json::from_str(
        text,
    )?;
    Ok(
        maps.into_iter().map(
            |(chip, table)| (chip, table.into_iter().map(|(f, r)| (f, r.into_iter().collect())).collect()),
        ).collect(),
    )
}

/// The register tables that the JSON text `included_string` writes down: an
/// object that gives, under the name of each chip, an object that gives,
/// under each frequency, the registers with their values as hexadecimal
/// text. A text that is not such JSON is an unknown error.
pub fn load_config_from_file(included_string: &str) -> (config: Result<Config, XRFClkError>)
    ensures
        match json_tables(included_string@) {
            None => config matches Err(error) && error.spec_kind()
                == XRFClkErrorKind::UnknownError,
            Some(raw) => match tables_of(raw) {
                Ok(tables) => config matches Ok(read) && read@ == tables,
                Err(kind) => config matches Err(error) && error.spec_kind() == kind,
            },
        },
{
    match parse_tables(included_string) {
        Ok(raw) => Config::from_raw(&raw),
        Err(_) => Err(XRFClkError::from(XRFClkErrorKind::UnknownError)),
    }
}

impl Config {
    /// The tables with the names of the chips and the values of the
    /// registers read from the text they are written down in.
    pub fn from_raw(raw: &RawConfig) -> (config: Result<Config, XRFClkError>)
        ensures
            match config {
                Ok(read) => tables_of(raw.deep_view()) == Ok::<_, XRFClkErrorKind>(read@),
                Err(error) => tables_of(raw.deep_view()) == Err::<
                    Seq<(Chip, Seq<(u64, Seq<(Seq<char>, u32)>)>)>,
                    _,
                >(error.spec_kind()),
            },
    {
        let mut chips: Vec<ChipTable> = Vec::new();
        let mut i: usize = 0;
        let ghost all = raw.deep_view();
        assert(all.take(0) == Seq::<(Seq<char>, Seq<(u64, Seq<(Seq<char>, Seq<char>)>)>)>::empty());
        assert((Config { chips })@ == Seq::<(Chip, Seq<(u64, Seq<(Seq<char>, u32)>)>)>::empty());
        while i < raw.len()
            invariant
                i <= raw@.len(),
                all == raw.deep_view(),
                tables_of(all.take(i as int)) == Ok::<_, XRFClkErrorKind>((Config { chips })@),
            decreases raw@.len() - i,
        {
            assert(all.take(i + 1).drop_last() == all.take(i as int));
            assert(all.take(i + 1).last() == (raw@[i as int].0@, raw@[i as int].1.deep_view()));
            let chip = match Chip::from_str(raw[i].0.as_str()) {
                Ok(chip) => chip,
                Err(error) => {
                    proof {
                        lemma_tables_prefix(all, i + 1);
                    }
                    return Err(error);
                },
            };
            match read_frequencies(&raw[i].1) {
                None => {
                    proof {
                        lemma_tables_prefix(all, i + 1);
                    }
                    return Err(XRFClkError::from(XRFClkErrorKind::UnknownError));
                },
                Some(frequencies) => {
                    let ghost before = (Config { chips })@;
                    let ghost added = frequencies_view(frequencies@);
                    chips.push(ChipTable { chip, frequencies });
                    assert((Config { chips })@ == before.push((chip, added)));
                },
            }
            i += 1;
        }
        assert(all.take(all.len() as int) == all);
        Ok(Config { chips })
    }

    /// The frequencies that `chip` can be programmed for: those of its first
    /// table, if it has one.
    pub fn get(&self, chip: Chip) -> (frequencies: Option<&Vec<FrequencyTable>>)
        ensures
            match frequencies {
                Some(found) => lookup(self@, chip) == Some(frequencies_view(found@)),
                None => lookup(self@, chip) is None,
            },
    {
        let mut i: usize = 0;
        assert(self@.skip(0) == self@);
        while i < self.chips.len()
            invariant
                i <= self.chips@.len(),
                lookup(self@, chip) == lookup(self@.skip(i as int), chip),
            decreases self.chips@.len() - i,
        {
            assert(self@.skip(i as int).drop_first() == self@.skip(i + 1));
            if self.chips[i].chip == chip {
                return Some(&self.chips[i].frequencies);
            }
            i += 1;
        }
        None
    }
}

/// What is found under `key` in a list of entries: the value of the first
/// entry of that key, if there is one.
pub open spec fn lookup<K, V>(entries: Seq<(K, V)>, key: K) -> Option<V>
    decreases entries.len(),
{
    if entries.len() == 0 {
        None
    } else if entries[0].0 == key {
        Some(entries[0].1)
    } else {
        lookup(entries.drop_first(), key)
    }
}

/// The registers to program for `frequency`: those of the first entry of
/// that frequency, if there is one.
pub fn registers_for(frequencies: &Vec<FrequencyTable>, frequency: u64) -> (registers: Option<
    &Vec<Register>,
>)
    ensures
        match registers {
            Some(found) => lookup(frequencies_view(frequencies@), frequency) == Some(
                registers_view(found@),
            ),
            None => lookup(frequencies_view(frequencies@), frequency) is None,
        },
{
    let ghost all = frequencies_view(frequencies@);
    let mut i: usize = 0;
    assert(all.skip(0) == all);
    while i < frequencies.len()
        invariant
            i <= frequencies@.len(),
            all == frequencies_view(frequencies@),
            lookup(all, frequency) == lookup(all.skip(i as int), frequency),
        decreases frequencies@.len() - i,
    {
        assert(all.skip(i as int).drop_first() == all.skip(i + 1));
        if frequencies[i].frequency == frequency {
            return Some(&frequencies[i].registers);
        }
        i += 1;
    }
    None
}

/// The value of the first register of the name `name`, if there is one.
pub fn register_named(registers: &Vec<Register>, name: &str) -> (value: Option<u32>)
    ensures
        value == lookup(registers_view(registers@), name@),
{
    let ghost all = registers_view(registers@);
    let mut i: usize = 0;
    assert(all.skip(0) == all);
    while i < registers.len()
        invariant
            i <= registers@.len(),
            all == registers_view(registers@),
            lookup(all, name@) == lookup(all.skip(i as int), name@),
        decreases registers@.len() - i,
    {
        assert(all.skip(i as int).drop_first() == all.skip(i + 1));
        if same_text(registers[i].name.as_str(), name) {
            return Some(registers[i].value);
        }
        i += 1;
    }
    None
}

} // verus!
