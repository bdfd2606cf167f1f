//! Console channel identities and the console's channel layout.

use vstd::prelude::*;

verus! {

/// One addressable channel strip on the console. The number is 1-based.
#[derive(Clone, Copy, Debug, PartialEq, Eq, Hash, Structural)]
pub enum ChannelId {
    Input(u16),
    Aux(u16),
    Group(u16),
    Matrix(u16),
    ControlGroup(u16),
    GraphicEq(u16),
    MatrixInput(u16),
}

/// The inner (1-based) channel number of any channel.
pub open spec fn spec_channel_number(ch: ChannelId) -> u16 {
    match ch {
        ChannelId::Input(n) => n,
        ChannelId::Aux(n) => n,
        ChannelId::Group(n) => n,
        ChannelId::Matrix(n) => n,
        ChannelId::ControlGroup(n) => n,
        ChannelId::GraphicEq(n) => n,
        ChannelId::MatrixInput(n) => n,
    }
}

/// Which kind of strip a channel is, as a small index (declaration order).
pub open spec fn kind_index(ch: ChannelId) -> int {
    match ch {
        ChannelId::Input(_) => 0,
        ChannelId::Aux(_) => 1,
        ChannelId::Group(_) => 2,
        ChannelId::Matrix(_) => 3,
        ChannelId::ControlGroup(_) => 4,
        ChannelId::GraphicEq(_) => 5,
        ChannelId::MatrixInput(_) => 6,
    }
}

/// Inner channel number of any `ChannelId` variant.
pub fn channel_number(ch: &ChannelId) -> (n: u16)
    ensures
        n == spec_channel_number(*ch),
{
    match ch {
        ChannelId::Input(n) => *n,
        ChannelId::Aux(n) => *n,
        ChannelId::Group(n) => *n,
        ChannelId::Matrix(n) => *n,
        ChannelId::ControlGroup(n) => *n,
        ChannelId::GraphicEq(n) => *n,
        ChannelId::MatrixInput(n) => *n,
    }
}

/// The kind index of a channel.
pub fn kind_code(ch: &ChannelId) -> (k: u8)
    ensures
        k == kind_index(*ch),
{
    match ch {
        ChannelId::Input(_) => 0,
        ChannelId::Aux(_) => 1,
        ChannelId::Group(_) => 2,
        ChannelId::Matrix(_) => 3,
        ChannelId::ControlGroup(_) => 4,
        ChannelId::GraphicEq(_) => 5,
        ChannelId::MatrixInput(_) => 6,
    }
}

/// Build a channel of the given kind index and number.
pub open spec fn spec_channel_of_kind(kind: int, n: u16) -> ChannelId {
    if kind == 0 {
        ChannelId::Input(n)
    } else if kind == 1 {
        ChannelId::Aux(n)
    } else if kind == 2 {
        ChannelId::Group(n)
    } else if kind == 3 {
        ChannelId::Matrix(n)
    } else if kind == 4 {
        ChannelId::ControlGroup(n)
    } else if kind == 5 {
        ChannelId::GraphicEq(n)
    } else {
        ChannelId::MatrixInput(n)
    }
}

pub fn channel_of_kind(kind: u8, n: u16) -> (ch: ChannelId)
    ensures
        ch == spec_channel_of_kind(kind as int, n),
{
    if kind == 0 {
        ChannelId::Input(n)
    } else if kind == 1 {
        ChannelId::Aux(n)
    } else if kind == 2 {
        ChannelId::Group(n)
    } else if kind == 3 {
        ChannelId::Matrix(n)
    } else if kind == 4 {
        ChannelId::ControlGroup(n)
    } else if kind == 5 {
        ChannelId::GraphicEq(n)
    } else {
        ChannelId::MatrixInput(n)
    }
}

/// Mono / stereo configuration of a bus.
#[derive(Clone, Copy, Debug, PartialEq, Eq, Hash, Structural)]
pub enum ChannelMode {
    Mono,
    Stereo,
}

/// Console layout discovered from the desk (or loaded from a show file).
pub struct ConsoleConfig {
    pub console_name: String,
    pub console_serial: String,
    pub session_filename: Option<String>,
    pub input_channel_count: u16,
    pub aux_output_count: u16,
    pub group_output_count: u16,
    pub matrix_output_count: u16,
    pub matrix_input_count: u16,
    pub control_group_count: u16,
    pub graphic_eq_count: u16,
    pub talkback_output_count: u16,
    /// Per mix output: `true` for an aux, `false` for a group.
    pub mix_output_types: Vec<bool>,
    /// Per aux (1-based aux `n` at index `n - 1`): mono / stereo.
    pub mix_output_modes: Vec<ChannelMode>,
    pub input_modes: Vec<ChannelMode>,
    /// Per group (1-based group `n` at index `n - 1`): mono / stereo.
    pub group_modes: Vec<ChannelMode>,
}

impl ConsoleConfig {
    /// The layout of the reference desk: 48 inputs, 8 auxes, 8 groups,
    /// 8 matrices, 10 matrix inputs, 10 control groups, 16 graphic EQs.
    pub fn default_config() -> (c: ConsoleConfig)
        ensures
            c.input_channel_count == 48,
            c.aux_output_count == 8,
            c.group_output_count == 8,
            c.matrix_output_count == 8,
            c.matrix_input_count == 10,
            c.control_group_count == 10,
            c.graphic_eq_count == 16,
            c.talkback_output_count == 0,
            c.console_name@.len() == 0,
            c.console_serial@.len() == 0,
            c.session_filename is None,
            c.mix_output_types@.len() == 0,
            c.mix_output_modes@.len() == 0,
            c.input_modes@.len() == 0,
            c.group_modes@.len() == 0,
    {
        ConsoleConfig {
            console_name: String::new(),
            console_serial: String::new(),
            session_filename: None,
            input_channel_count: 48,
            aux_output_count: 8,
            group_output_count: 8,
            matrix_output_count: 8,
            matrix_input_count: 10,
            control_group_count: 10,
            graphic_eq_count: 16,
            talkback_output_count: 0,
            mix_output_types: Vec::new(),
            mix_output_modes: Vec::new(),
            input_modes: Vec::new(),
            group_modes: Vec::new(),
        }
    }

    /// Mode of aux `n` (1-based), when the config records one.
    pub open spec fn spec_aux_mode(&self, n: int) -> Option<ChannelMode> {
        if 1 <= n <= self.mix_output_modes@.len() {
            Some(self.mix_output_modes@[n - 1])
        } else {
            None
        }
    }

    /// Mode of group `n` (1-based), when the config records one.
    pub open spec fn spec_group_mode(&self, n: int) -> Option<ChannelMode> {
        if 1 <= n <= self.group_modes@.len() {
            Some(self.group_modes@[n - 1])
        } else {
            None
        }
    }

    pub fn aux_mode(&self, n: u16) -> (m: Option<ChannelMode>)
        ensures
            m == self.spec_aux_mode(n as int),
    {
        if n >= 1 && (n as usize) <= self.mix_output_modes.len() {
            Some(self.mix_output_modes[(n - 1) as usize])
        } else {
            None
        }
    }

    pub fn group_mode(&self, n: u16) -> (m: Option<ChannelMode>)
        ensures
            m == self.spec_group_mode(n as int),
    {
        if n >= 1 && (n as usize) <= self.group_modes.len() {
            Some(self.group_modes[(n - 1) as usize])
        } else {
            None
        }
    }
}

impl Default for ConsoleConfig {
    /// The reference desk's layout (see [`ConsoleConfig::default_config`]).
    fn default() -> (c: ConsoleConfig)
        ensures
            c.input_channel_count == 48,
            c.aux_output_count == 8,
            c.group_output_count == 8,
            c.matrix_output_count == 8,
            c.matrix_input_count == 10,
            c.control_group_count == 10,
            c.graphic_eq_count == 16,
            c.talkback_output_count == 0,
            c.console_name@.len() == 0,
            c.console_serial@.len() == 0,
            c.session_filename is None,
            c.mix_output_types@.len() == 0,
            c.mix_output_modes@.len() == 0,
            c.input_modes@.len() == 0,
            c.group_modes@.len() == 0,
    {
        ConsoleConfig::default_config()
    }
}

/// Channel-type groups, in display order. Each group lists the channels of
/// one strip kind that the console has.
#[derive(Clone, Copy, Debug, PartialEq, Eq, Hash, Structural)]
pub enum ChannelGroup {
    Inputs,
    Aux,
    Groups,
    Matrix,
    ControlGroups,
    GraphicEqs,
    MatrixInputs,
}

impl ChannelGroup {
    /// Kind index of the strips this group lists.
    pub open spec fn spec_kind(self) -> int {
        match self {
            ChannelGroup::Inputs => 0,
            ChannelGroup::Aux => 1,
            ChannelGroup::Groups => 2,
            ChannelGroup::Matrix => 3,
            ChannelGroup::ControlGroups => 4,
            ChannelGroup::GraphicEqs => 5,
            ChannelGroup::MatrixInputs => 6,
        }
    }

    pub fn kind(&self) -> (k: u8)
        ensures
            k == self.spec_kind(),
    {
        match self {
            ChannelGroup::Inputs => 0,
            ChannelGroup::Aux => 1,
            ChannelGroup::Groups => 2,
            ChannelGroup::Matrix => 3,
            ChannelGroup::ControlGroups => 4,
            ChannelGroup::GraphicEqs => 5,
            ChannelGroup::MatrixInputs => 6,
        }
    }

    /// Every group, in display order.
    pub open spec fn spec_all() -> Seq<ChannelGroup> {
        seq![
            ChannelGroup::Inputs,
            ChannelGroup::Aux,
            ChannelGroup::Groups,
            ChannelGroup::Matrix,
            ChannelGroup::ControlGroups,
            ChannelGroup::GraphicEqs,
            ChannelGroup::MatrixInputs,
        ]
    }

    pub fn all() -> (v: Vec<ChannelGroup>)
        ensures
            v@ == Self::spec_all(),
    {
        let v = vec![
            ChannelGroup::Inputs,
            ChannelGroup::Aux,
            ChannelGroup::Groups,
            ChannelGroup::Matrix,
            ChannelGroup::ControlGroups,
            ChannelGroup::GraphicEqs,
            ChannelGroup::MatrixInputs,
        ];
        assert(v@ =~= Self::spec_all());
        v
    }

    /// How many strips of this group's kind the console has.
    pub open spec fn spec_count(self, cfg: &ConsoleConfig) -> u16 {
        match self {
            ChannelGroup::Inputs => cfg.input_channel_count,
            ChannelGroup::Aux => cfg.aux_output_count,
            ChannelGroup::Groups => cfg.group_output_count,
            ChannelGroup::Matrix => cfg.matrix_output_count,
            ChannelGroup::ControlGroups => cfg.control_group_count,
            ChannelGroup::GraphicEqs => cfg.graphic_eq_count,
            ChannelGroup::MatrixInputs => cfg.matrix_input_count,
        }
    }

    /// The group's channels: numbers `1..=count`, ascending.
    pub open spec fn spec_channels(self, cfg: &ConsoleConfig) -> Seq<ChannelId> {
        Seq::new(
            self.spec_count(cfg) as nat,
            |i: int| spec_channel_of_kind(self.spec_kind(), (i + 1) as u16),
        )
    }

    pub fn channels_from(&self, cfg: &ConsoleConfig) -> (v: Vec<ChannelId>)
        ensures
            v@ == self.spec_channels(cfg),
    {
        let count: u16 = match self {
            ChannelGroup::Inputs => cfg.input_channel_count,
            ChannelGroup::Aux => cfg.aux_output_count,
            ChannelGroup::Groups => cfg.group_output_count,
            ChannelGroup::Matrix => cfg.matrix_output_count,
            ChannelGroup::ControlGroups => cfg.control_group_count,
            ChannelGroup::GraphicEqs => cfg.graphic_eq_count,
            ChannelGroup::MatrixInputs => cfg.matrix_input_count,
        };
        let kind = self.kind();
        let mut v: Vec<ChannelId> = Vec::new();
        let mut i: u16 = 0;
        while i < count
            invariant
                i <= count,
                count == self.spec_count(cfg),
                kind == self.spec_kind(),
                v@ =~= Seq::new(
                    i as nat,
                    |j: int| spec_channel_of_kind(self.spec_kind(), (j + 1) as u16),
                ),
            decreases count - i,
        {
            v.push(channel_of_kind(kind, i + 1));
            i = i + 1;
        }
        v
    }
}

} // verus!
