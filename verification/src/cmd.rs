//! Commands and the registry that names them.

use vstd::prelude::*;

verus! {

broadcast use vstd::string::group_string_axioms;

/// A command addressed by its symbolic name.
///
/// `val` holds the IEEE-754 binary32 bit pattern of the command's value.
#[derive(Clone, Debug)]
pub struct KeyCMD {
    pub key: String,
    pub val: u32,
}

/// A command addressed by its numeric identifier.
///
/// `val` holds the IEEE-754 binary32 bit pattern of the command's value.
#[derive(Copy, Clone, Debug)]
pub struct CMD {
    pub id: u8,
    pub val: u32,
}

/// The identifier that stands for "no such command".
pub const UNKNOWN_ID: u8 = 0;

/// The registry's fixed contents: every command name with its identifier.
pub open spec fn command_table() -> Seq<(Seq<char>, u8)> {
    seq![
        ("enable"@, 1u8),
        ("target"@, 2u8),
        ("loop_mode"@, 3u8),
        ("voltage_limit"@, 4u8),
        ("voltage_power"@, 5u8),
        ("velocity_limit"@, 6u8),
        ("torque_limit"@, 7u8),
        ("torque_p"@, 11u8),
        ("torque_i"@, 12u8),
        ("torque_d"@, 13u8),
        ("torque_ramp"@, 14u8),
        ("torque_tf"@, 15u8),
        ("velocity_p"@, 21u8),
        ("velocity_i"@, 22u8),
        ("velocity_d"@, 23u8),
        ("velocity_ramp"@, 24u8),
        ("velocity_tf"@, 25u8),
        ("position_p"@, 31u8),
        ("position_i"@, 32u8),
        ("position_d"@, 33u8),
        ("position_ramp"@, 34u8),
        ("position_tf"@, 35u8),
        ("conf_base"@, 100u8),
        ("conf_velocity"@, 101u8),
        ("conf_position"@, 102u8),
        ("conf_torque"@, 103u8),
        ("conf_torque_pid"@, 104u8),
        ("conf_velocity_pid"@, 105u8),
        ("conf_position_pid"@, 106u8),
        ("conf_limit"@, 107u8),
        ("conf_voltage_offset"@, 108u8),
        ("stream_states"@, 150u8),
        ("stream_q"@, 151u8),
        ("stream_current"@, 152u8),
        ("stream_time"@, 153u8),
    ]
}

/// Whether `key` names one of the first `n` entries of `table`.
pub open spec fn names(table: Seq<(Seq<char>, u8)>, n: int, key: Seq<char>) -> bool {
    exists|i: int| 0 <= i < n && i < table.len() && (#[trigger] table[i]).0 == key
}

/// No name occurs twice in `table`.
pub open spec fn distinct_names(table: Seq<(Seq<char>, u8)>) -> bool {
    forall|i: int, j: int|
        0 <= i < j < table.len() ==> (#[trigger] table[i]).0 != (#[trigger] table[j]).0
}

/// The identifier that `table` gives to `key`: that of the first entry
/// named `key`, and `UNKNOWN_ID` where there is none.
pub open spec fn lookup(table: Seq<(Seq<char>, u8)>, key: Seq<char>) -> u8
    decreases table.len(),
{
    if table.len() == 0 {
        UNKNOWN_ID
    } else if table[0].0 == key {
        table[0].1
    } else {
        lookup(table.drop_first(), key)
    }
}

/// The identifier of the command named `key` in the fixed registry.
pub open spec fn command_id(key: Seq<char>) -> u8 {
    lookup(command_table(), key)
}

/// A name that no entry bears resolves to `UNKNOWN_ID`.
pub proof fn lemma_lookup_absent(table: Seq<(Seq<char>, u8)>, key: Seq<char>)
    requires
        !names(table, table.len() as int, key),
    ensures
        lookup(table, key) == UNKNOWN_ID,
    decreases table.len(),
{
    if table.len() > 0 {
        assert(table[0].0 != key);
        let rest = table.drop_first();
        assert forall|i: int| 0 <= i < rest.len() implies (#[trigger] rest[i]).0 != key by {
            assert(rest[i] == table[i + 1]);
        }
        lemma_lookup_absent(rest, key);
    }
}

/// Where no name occurs twice, every entry's name resolves to that
/// entry's identifier.
pub proof fn lemma_lookup_present(table: Seq<(Seq<char>, u8)>, i: int)
    requires
        distinct_names(table),
        0 <= i < table.len(),
    ensures
        lookup(table, table[i].0) == table[i].1,
    decreases table.len(),
{
    if i > 0 {
        let rest = table.drop_first();
        assert(table[0].0 != table[i].0);
        assert(rest[i - 1] == table[i]);
        assert forall|a: int, b: int| 0 <= a < b < rest.len() implies (#[trigger] rest[a]).0 != (
        #[trigger] rest[b]).0 by {
            assert(rest[a] == table[a + 1]);
            assert(rest[b] == table[b + 1]);
        }
        lemma_lookup_present(rest, i - 1);
    }
}

/// The fixed registry has 35 entries and names no command twice.
pub proof fn lemma_table_distinct()
    ensures
        command_table().len() == 35,
        distinct_names(command_table()),
{
    reveal_strlit("enable");
    reveal_strlit("target");
    reveal_strlit("loop_mode");
    reveal_strlit("voltage_limit");
    reveal_strlit("voltage_power");
    reveal_strlit("velocity_limit");
    reveal_strlit("torque_limit");
    reveal_strlit("torque_p");
    reveal_strlit("torque_i");
    reveal_strlit("torque_d");
    reveal_strlit("torque_ramp");
    reveal_strlit("torque_tf");
    reveal_strlit("velocity_p");
    reveal_strlit("velocity_i");
    reveal_strlit("velocity_d");
    reveal_strlit("velocity_ramp");
    reveal_strlit("velocity_tf");
    reveal_strlit("position_p");
    reveal_strlit("position_i");
    reveal_strlit("position_d");
    reveal_strlit("position_ramp");
    reveal_strlit("position_tf");
    reveal_strlit("conf_base");
    reveal_strlit("conf_velocity");
    reveal_strlit("conf_position");
    reveal_strlit("conf_torque");
    reveal_strlit("conf_torque_pid");
    reveal_strlit("conf_velocity_pid");
    reveal_strlit("conf_position_pid");
    reveal_strlit("conf_limit");
    reveal_strlit("conf_voltage_offset");
    reveal_strlit("stream_states");
    reveal_strlit("stream_q");
    reveal_strlit("stream_current");
    reveal_strlit("stream_time");
    let table = command_table();
    assert(table[0].0 == "enable"@);
    assert(table[1].0 == "target"@);
    assert(table[2].0 == "loop_mode"@);
    assert(table[3].0 == "voltage_limit"@);
    assert(table[4].0 == "voltage_power"@);
    assert(table[5].0 == "velocity_limit"@);
    assert(table[6].0 == "torque_limit"@);
    assert(table[7].0 == "torque_p"@);
    assert(table[8].0 == "torque_i"@);
    assert(table[9].0 == "torque_d"@);
    assert(table[10].0 == "torque_ramp"@);
    assert(table[11].0 == "torque_tf"@);
    assert(table[12].0 == "velocity_p"@);
    assert(table[13].0 == "velocity_i"@);
    assert(table[14].0 == "velocity_d"@);
    assert(table[15].0 == "velocity_ramp"@);
    assert(table[16].0 == "velocity_tf"@);
    assert(table[17].0 == "position_p"@);
    assert(table[18].0 == "position_i"@);
    assert(table[19].0 == "position_d"@);
    assert(table[20].0 == "position_ramp"@);
    assert(table[21].0 == "position_tf"@);
    assert(table[22].0 == "conf_base"@);
    assert(table[23].0 == "conf_velocity"@);
    assert(table[24].0 == "conf_position"@);
    assert(table[25].0 == "conf_torque"@);
    assert(table[26].0 == "conf_torque_pid"@);
    assert(table[27].0 == "conf_velocity_pid"@);
    assert(table[28].0 == "conf_position_pid"@);
    assert(table[29].0 == "conf_limit"@);
    assert(table[30].0 == "conf_voltage_offset"@);
    assert(table[31].0 == "stream_states"@);
    assert(table[32].0 == "stream_q"@);
    assert(table[33].0 == "stream_current"@);
    assert(table[34].0 == "stream_time"@);
    assert forall|i: int, j: int| 0 <= i < j < table.len() implies (#[trigger] table[i]).0 != (
    #[trigger] table[j]).0 by {
        assert(table[i].0.len() != table[j].0.len() || table[i].0[0] != table[j].0[0]
            || table[i].0.last() != table[j].0.last() || table[i].0[5] != table[j].0[5]);
    }
}

/// Registry totality: each name of the fixed table resolves to the
/// identifier listed beside it, and every other name to `UNKNOWN_ID`.
pub proof fn lemma_registry_total(key: Seq<char>)
    ensures
        forall|i: int|
            0 <= i < command_table().len() ==> command_id((#[trigger] command_table()[i]).0)
                == command_table()[i].1,
        !names(command_table(), command_table().len() as int, key) ==> command_id(key)
            == UNKNOWN_ID,
{
    lemma_table_distinct();
    assert forall|i: int| 0 <= i < command_table().len() implies command_id(
        (#[trigger] command_table()[i]).0,
    ) == command_table()[i].1 by {
        lemma_lookup_present(command_table(), i);
    }
    if !names(command_table(), command_table().len() as int, key) {
        lemma_lookup_absent(command_table(), key);
    }
}

/// The identifiers of the four telemetry streams.
pub proof fn lemma_stream_ids()
    ensures
        command_id("stream_states"@) == 150,
        command_id("stream_q"@) == 151,
        command_id("stream_current"@) == 152,
        command_id("stream_time"@) == 153,
{
    lemma_table_distinct();
    let table = command_table();
    assert(table[31] == ("stream_states"@, 150u8));
    assert(table[32] == ("stream_q"@, 151u8));
    assert(table[33] == ("stream_current"@, 152u8));
    assert(table[34] == ("stream_time"@, 153u8));
    lemma_lookup_present(table, 31);
    lemma_lookup_present(table, 32);
    lemma_lookup_present(table, 33);
    lemma_lookup_present(table, 34);
}

/// The first entry named `key` decides what `key` resolves to.
pub proof fn lemma_lookup_first(table: Seq<(Seq<char>, u8)>, key: Seq<char>, i: int)
    requires
        0 <= i < table.len(),
        table[i].0 == key,
        !names(table, i, key),
    ensures
        lookup(table, key) == table[i].1,
    decreases table.len(),
{
    if i > 0 {
        let rest = table.drop_first();
        assert(table[0].0 != key);
        assert(rest[i - 1] == table[i]);
        assert forall|j: int| 0 <= j < i - 1 implies (#[trigger] rest[j]).0 != key by {
            assert(rest[j] == table[j + 1]);
        }
        lemma_lookup_first(rest, key, i - 1);
    }
}

/// Lookups are repeatable: registries with the same contents give every
/// name the same identifier, however often they are asked.
pub proof fn lemma_lookup_repeatable(first: CmdMap, second: CmdMap, key: Seq<char>)
    requires
        first@ == second@,
    ensures
        first.spec_key2id(key) == second.spec_key2id(key),
{
}

/// The registry: command names with their identifiers, in the order in
/// which they were entered.
#[derive(Clone, Debug)]
pub struct CmdMap {
    pub map: Vec<(String, u8)>,
}

impl View for CmdMap {
    type V = Seq<(Seq<char>, u8)>;

    open spec fn view(&self) -> Seq<(Seq<char>, u8)> {
        Seq::new(self.map@.len(), |i: int| (self.map@[i].0@, self.map@[i].1))
    }
}

impl CmdMap {
    /// No name was entered twice.
    pub open spec fn wf(&self) -> bool {
        distinct_names(self@)
    }

    /// The identifier that this registry gives to `key`.
    pub open spec fn spec_key2id(&self, key: Seq<char>) -> u8 {
        lookup(self@, key)
    }

    fn insert(&mut self, key: &str, id: u8)
        ensures
            final(self)@ == old(self)@.push((key@, id)),
    {
        self.map.push((key.to_string(), id));
        assert(self@ =~= old(self)@.push((key@, id)));
    }

    /// Builds the fixed registry.
    pub fn new() -> (table: Self)
        ensures
            table@ == command_table(),
            table.wf(),
    {
        let mut table = CmdMap { map: Vec::new() };
        assert(table@ =~= Seq::empty());
        table.insert("enable", 1);
        table.insert("target", 2);
        table.insert("loop_mode", 3);
        table.insert("voltage_limit", 4);
        table.insert("voltage_power", 5);
        table.insert("velocity_limit", 6);
        table.insert("torque_limit", 7);
        table.insert("torque_p", 11);
        table.insert("torque_i", 12);
        table.insert("torque_d", 13);
        table.insert("torque_ramp", 14);
        table.insert("torque_tf", 15);
        table.insert("velocity_p", 21);
        table.insert("velocity_i", 22);
        table.insert("velocity_d", 23);
        table.insert("velocity_ramp", 24);
        table.insert("velocity_tf", 25);
        table.insert("position_p", 31);
        table.insert("position_i", 32);
        table.insert("position_d", 33);
        table.insert("position_ramp", 34);
        table.insert("position_tf", 35);
        table.insert("conf_base", 100);
        table.insert("conf_velocity", 101);
        table.insert("conf_position", 102);
        table.insert("conf_torque", 103);
        table.insert("conf_torque_pid", 104);
        table.insert("conf_velocity_pid", 105);
        table.insert("conf_position_pid", 106);
        table.insert("conf_limit", 107);
        table.insert("conf_voltage_offset", 108);
        table.insert("stream_states", 150);
        table.insert("stream_q", 151);
        table.insert("stream_current", 152);
        table.insert("stream_time", 153);
        proof {
            lemma_table_distinct();
        }
        table
    }

    /// Resolves `key` to its identifier, and to `UNKNOWN_ID` where the
    /// registry does not hold it. The registry is left as it was.
    pub fn key2id(&mut self, key: &str) -> (id: u8)
        ensures
            *final(self) == *old(self),
            id == old(self).spec_key2id(key@),
    {
        let wanted: String = key.to_string();
        let mut i: usize = 0;
        while i < self.map.len()
            invariant
                *self == *old(self),
                i <= self.map.len(),
                wanted@ == key@,
                !names(self@, i as int, key@),
            decreases self.map.len() - i,
        {
            if self.map[i].0 == wanted {
                proof {
                    lemma_lookup_first(self@, key@, i as int);
                }
                return self.map[i].1;
            }
            i = i + 1;
        }
        proof {
            lemma_lookup_absent(self@, key@);
        }
        UNKNOWN_ID
    }
}

} // verus!
