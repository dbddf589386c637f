use vstd::prelude::*;

verus! {

/// The bit pattern of an IEEE 754 binary32 value, as `f32::to_bits` gives it.
/// Floating-point parameters are carried this way, bit for bit.
pub type F32Bits = u32;

/// Bits of the largest finite `f32`.
pub const F32_MAX_BITS: F32Bits = 0x7f7f_ffff;

/// Bits of the smallest finite `f32`.
pub const F32_MIN_BITS: F32Bits = 0xff7f_ffff;

/// Bits of `0.1`, the server's default Mirostat learning rate.
pub const DEFAULT_MIROSTAT_ETA: F32Bits = 0x3dcc_cccd;

/// Bits of `5.0`, the server's default Mirostat target entropy.
pub const DEFAULT_MIROSTAT_TAU: F32Bits = 0x40a0_0000;

pub const DEFAULT_NUM_CTX: u32 = 2048;

pub const DEFAULT_NUM_GQA: u32 = 8;

pub const DEFAULT_NUM_GPU: u32 = 1;

pub const DEFAULT_NUM_THREAD: u32 = 0;

pub const DEFAULT_REPEAT_LAST_N: i32 = 64;

/// Bits of `1.1`.
pub const DEFAULT_REPEAT_PENALTY: F32Bits = 0x3f8c_cccd;

/// Bits of `0.8`.
pub const DEFAULT_TEMPERATURE: F32Bits = 0x3f4c_cccd;

pub const DEFAULT_SEED: i32 = 0;

/// Bits of `1.0`, which disables tail-free sampling.
pub const DEFAULT_TFS_Z: F32Bits = 0x3f80_0000;

pub const DEFAULT_NUM_PREDICT: i32 = 128;

pub const DEFAULT_TOP_K: u32 = 40;

/// Bits of `0.9`.
pub const DEFAULT_TOP_P: F32Bits = 0x3f66_6666;

/// Mirostat sampling mode.
#[derive(Clone, Copy, PartialEq, Eq, Structural, Debug)]
pub enum Mirostat {
    Disabled,
    Mirostat,
    Mirostat2,
}

impl Mirostat {
    /// The number the server knows the mode by.
    pub open spec fn code(self) -> u8 {
        match self {
            Mirostat::Disabled => 0,
            Mirostat::Mirostat => 1,
            Mirostat::Mirostat2 => 2,
        }
    }

    pub fn to_u8(self) -> (r: u8)
        ensures
            r == self.code(),
    {
        match self {
            Mirostat::Disabled => 0,
            Mirostat::Mirostat => 1,
            Mirostat::Mirostat2 => 2,
        }
    }

    /// The label shown for the mode.
    pub fn name(self) -> (r: &'static str)
        ensures
            self is Disabled ==> r@ == "Disabled"@,
            self is Mirostat ==> r@ == "Mirostat"@,
            self is Mirostat2 ==> r@ == "Mirostat 2.0"@,
    {
        match self {
            Mirostat::Disabled => "Disabled",
            Mirostat::Mirostat => "Mirostat",
            Mirostat::Mirostat2 => "Mirostat 2.0",
        }
    }
}

/// The sparse generation settings of a session: each parameter is either
/// absent, and the server uses its own default, or holds a value.
pub struct ModelSettings {
    /// Mirostat sampling for controlling perplexity.
    pub mirostat: Option<Mirostat>,
    /// How quickly Mirostat responds to feedback from the generated text.
    pub mirostat_eta: Option<F32Bits>,
    /// Balance between coherence and diversity of the output.
    pub mirostat_tau: Option<F32Bits>,
    /// Size of the context window used to generate the next token.
    pub num_ctx: Option<u32>,
    /// Number of GQA groups in the transformer layer.
    pub num_gqa: Option<u32>,
    /// Number of layers to send to the GPU(s).
    pub num_gpu: Option<u32>,
    /// Number of threads to use during computation.
    pub num_thread: Option<u32>,
    /// How far back the model looks to prevent repetition (0 = disabled, -1 = num_ctx).
    pub repeat_last_n: Option<i32>,
    /// How strongly repetitions are penalized.
    pub repeat_penalty: Option<F32Bits>,
    /// Temperature of the model.
    pub temperature: Option<F32Bits>,
    /// Random number seed used for generation.
    pub seed: Option<i32>,
    /// Stop sequences.
    pub stop: Option<Vec<String>>,
    /// Tail-free sampling parameter (1.0 disables it).
    pub tfs_z: Option<F32Bits>,
    /// Maximum number of tokens to predict (-1 = infinite, -2 = fill context).
    pub num_predict: Option<i32>,
    /// Top-k sampling.
    pub top_k: Option<u32>,
    /// Top-p sampling.
    pub top_p: Option<F32Bits>,
}

/// The dense options record handed to the model-serving client: every
/// parameter the settings hold, and nothing else.
pub struct GenerationOptions {
    pub mirostat: Option<u8>,
    pub mirostat_eta: Option<F32Bits>,
    pub mirostat_tau: Option<F32Bits>,
    pub num_ctx: Option<u32>,
    pub num_gqa: Option<u32>,
    pub num_gpu: Option<u32>,
    pub num_thread: Option<u32>,
    pub repeat_last_n: Option<i32>,
    pub repeat_penalty: Option<F32Bits>,
    pub temperature: Option<F32Bits>,
    pub seed: Option<i32>,
    pub stop: Option<Vec<String>>,
    pub tfs_z: Option<F32Bits>,
    pub num_predict: Option<i32>,
    pub top_k: Option<u32>,
    pub top_p: Option<F32Bits>,
}

impl ModelSettings {
    /// No parameter is set.
    pub open spec fn all_unset(&self) -> bool {
        &&& self.mirostat is None
        &&& self.mirostat_eta is None
        &&& self.mirostat_tau is None
        &&& self.num_ctx is None
        &&& self.num_gqa is None
        &&& self.num_gpu is None
        &&& self.num_thread is None
        &&& self.repeat_last_n is None
        &&& self.repeat_penalty is None
        &&& self.temperature is None
        &&& self.seed is None
        &&& self.stop is None
        &&& self.tfs_z is None
        &&& self.num_predict is None
        &&& self.top_k is None
        &&& self.top_p is None
    }

    pub fn new() -> (r: ModelSettings)
        ensures
            r.all_unset(),
    {
        ModelSettings {
            mirostat: None,
            mirostat_eta: None,
            mirostat_tau: None,
            num_ctx: None,
            num_gqa: None,
            num_gpu: None,
            num_thread: None,
            repeat_last_n: None,
            repeat_penalty: None,
            temperature: None,
            seed: None,
            stop: None,
            tfs_z: None,
            num_predict: None,
            top_k: None,
            top_p: None,
        }
    }
}

impl Default for ModelSettings {
    fn default() -> (r: ModelSettings)
        ensures
            r.all_unset(),
    {
        ModelSettings::new()
    }
}

/// The Mirostat code of an optional mode.
pub open spec fn mirostat_code(m: Option<Mirostat>) -> Option<u8> {
    match m {
        Some(m) => Some(m.code()),
        None => None,
    }
}

/// The dense options that a set of settings converts to: each field is
/// applied on its own, and an absent parameter stays absent.
pub open spec fn options_of(s: ModelSettings) -> GenerationOptions {
    GenerationOptions {
        mirostat: mirostat_code(s.mirostat),
        mirostat_eta: s.mirostat_eta,
        mirostat_tau: s.mirostat_tau,
        num_ctx: s.num_ctx,
        num_gqa: s.num_gqa,
        num_gpu: s.num_gpu,
        num_thread: s.num_thread,
        repeat_last_n: s.repeat_last_n,
        repeat_penalty: s.repeat_penalty,
        temperature: s.temperature,
        seed: s.seed,
        stop: s.stop,
        tfs_z: s.tfs_z,
        num_predict: s.num_predict,
        top_k: s.top_k,
        top_p: s.top_p,
    }
}

impl From<ModelSettings> for GenerationOptions {
    fn from(value: ModelSettings) -> (r: GenerationOptions) {
        let mirostat = match value.mirostat {
            Some(m) => Some(m.to_u8()),
            None => None,
        };
        GenerationOptions {
            mirostat,
            mirostat_eta: value.mirostat_eta,
            mirostat_tau: value.mirostat_tau,
            num_ctx: value.num_ctx,
            num_gqa: value.num_gqa,
            num_gpu: value.num_gpu,
            num_thread: value.num_thread,
            repeat_last_n: value.repeat_last_n,
            repeat_penalty: value.repeat_penalty,
            temperature: value.temperature,
            seed: value.seed,
            stop: value.stop,
            tfs_z: value.tfs_z,
            num_predict: value.num_predict,
            top_k: value.top_k,
            top_p: value.top_p,
        }
    }
}

impl vstd::std_specs::convert::FromSpecImpl<ModelSettings> for GenerationOptions {
    open spec fn obeys_from_spec() -> bool {
        true
    }

    open spec fn from_spec(v: ModelSettings) -> GenerationOptions {
        options_of(v)
    }
}

/// A parameter that the settings leave unset is omitted from the dense options.
pub proof fn lemma_unset_is_omitted(s: ModelSettings)
    ensures
        s.mirostat is None ==> options_of(s).mirostat is None,
        s.mirostat_eta is None ==> options_of(s).mirostat_eta is None,
        s.mirostat_tau is None ==> options_of(s).mirostat_tau is None,
        s.num_ctx is None ==> options_of(s).num_ctx is None,
        s.num_gqa is None ==> options_of(s).num_gqa is None,
        s.num_gpu is None ==> options_of(s).num_gpu is None,
        s.num_thread is None ==> options_of(s).num_thread is None,
        s.repeat_last_n is None ==> options_of(s).repeat_last_n is None,
        s.repeat_penalty is None ==> options_of(s).repeat_penalty is None,
        s.temperature is None ==> options_of(s).temperature is None,
        s.seed is None ==> options_of(s).seed is None,
        s.stop is None ==> options_of(s).stop is None,
        s.tfs_z is None ==> options_of(s).tfs_z is None,
        s.num_predict is None ==> options_of(s).num_predict is None,
        s.top_k is None ==> options_of(s).top_k is None,
        s.top_p is None ==> options_of(s).top_p is None,
{
}

/// The conversion is a field-wise map: a parameter set to a value comes out
/// as exactly that value, whatever the other parameters hold, so two settings
/// that agree on a parameter give options that agree on it.
pub proof fn lemma_conversion_is_fieldwise(a: ModelSettings, b: ModelSettings)
    ensures
        a.mirostat == b.mirostat ==> options_of(a).mirostat == options_of(b).mirostat,
        a.mirostat_eta == b.mirostat_eta ==> options_of(a).mirostat_eta == options_of(b).mirostat_eta,
        a.mirostat_tau == b.mirostat_tau ==> options_of(a).mirostat_tau == options_of(b).mirostat_tau,
        a.num_ctx == b.num_ctx ==> options_of(a).num_ctx == options_of(b).num_ctx,
        a.num_gqa == b.num_gqa ==> options_of(a).num_gqa == options_of(b).num_gqa,
        a.num_gpu == b.num_gpu ==> options_of(a).num_gpu == options_of(b).num_gpu,
        a.num_thread == b.num_thread ==> options_of(a).num_thread == options_of(b).num_thread,
        a.repeat_last_n == b.repeat_last_n ==> options_of(a).repeat_last_n == options_of(b).repeat_last_n,
        a.repeat_penalty == b.repeat_penalty ==> options_of(a).repeat_penalty == options_of(b).repeat_penalty,
        a.temperature == b.temperature ==> options_of(a).temperature == options_of(b).temperature,
        a.seed == b.seed ==> options_of(a).seed == options_of(b).seed,
        a.stop == b.stop ==> options_of(a).stop == options_of(b).stop,
        a.tfs_z == b.tfs_z ==> options_of(a).tfs_z == options_of(b).tfs_z,
        a.num_predict == b.num_predict ==> options_of(a).num_predict == options_of(b).num_predict,
        a.top_k == b.top_k ==> options_of(a).top_k == options_of(b).top_k,
        a.top_p == b.top_p ==> options_of(a).top_p == options_of(b).top_p,
        forall|v: u32| a.num_ctx == Some(v) ==> options_of(a).num_ctx == Some(v),
        forall|v: F32Bits| a.temperature == Some(v) ==> options_of(a).temperature == Some(v),
        forall|m: Mirostat| a.mirostat == Some(m) ==> options_of(a).mirostat == Some(m.code()),
{
}

/// One interaction with the editor of an optional parameter.
pub enum EditAction<N> {
    /// The "enabled" toggle is switched on.
    Enable,
    /// The "enabled" toggle is switched off.
    Disable,
    /// The value is edited directly.
    SetValue(N),
    /// The value snaps to its type's maximum.
    SnapMax,
    /// The value snaps to its type's minimum.
    SnapMin,
    /// The parameter goes back to unset.
    Reset,
}

/// What the editor leaves in an optional parameter: enabling seeds an unset
/// parameter with its default, disabling or resetting clears it, and a value
/// can be edited or snapped only while the parameter is set.
pub open spec fn edited<N>(val: Option<N>, action: EditAction<N>, default: N, max: N, min: N) -> Option<N> {
    match action {
        EditAction::Enable => match val {
            Some(v) => Some(v),
            None => Some(default),
        },
        EditAction::Disable => None,
        EditAction::Reset => None,
        EditAction::SetValue(v) => if val is Some { Some(v) } else { None },
        EditAction::SnapMax => if val is Some { Some(max) } else { None },
        EditAction::SnapMin => if val is Some { Some(min) } else { None },
    }
}

/// The toggle-presence editor shared by every numeric parameter (and by the
/// Mirostat mode, which is only enabled, disabled and set).
pub fn edit_numeric<N: Copy>(val: &mut Option<N>, action: EditAction<N>, default: N, max: N, min: N)
    ensures
        *final(val) == edited(*old(val), action, default, max, min),
{
    let enabled = val.is_some();
    let next = match action {
        EditAction::Enable => match *val {
            Some(v) => Some(v),
            None => Some(default),
        },
        EditAction::Disable => None,
        EditAction::Reset => None,
        EditAction::SetValue(v) => if enabled { Some(v) } else { None },
        EditAction::SnapMax => if enabled { Some(max) } else { None },
        EditAction::SnapMin => if enabled { Some(min) } else { None },
    };
    *val = next;
}

/// One interaction with the stop-sequence editor.
pub enum StopAction {
    Enable,
    Disable,
    /// Appends an empty sequence.
    Add,
    /// Removes the sequence at a position.
    Remove(usize),
    /// Removes every sequence.
    Clear,
    /// Replaces the text of the sequence at a position.
    Edit(usize, String),
}

/// The stop sequences as character sequences, or `None` when unset.
pub open spec fn stop_view(stop: Option<Vec<String>>) -> Option<Seq<Seq<char>>> {
    match stop {
        Some(v) => Some(v.deep_view()),
        None => None,
    }
}

/// What the stop-sequence editor leaves: enabling an unset list makes it
/// empty, disabling clears it, and the list changes element-wise only while
/// it is set; a position past the end changes nothing.
pub open spec fn stop_edited(stop: Option<Seq<Seq<char>>>, action: StopAction) -> Option<Seq<Seq<char>>> {
    match stop {
        None => match action {
            StopAction::Enable => Some(Seq::empty()),
            _ => None,
        },
        Some(s) => match action {
            StopAction::Enable => Some(s),
            StopAction::Disable => None,
            StopAction::Add => Some(s.push(Seq::empty())),
            StopAction::Remove(i) => if i < s.len() { Some(s.remove(i as int)) } else { Some(s) },
            StopAction::Clear => Some(Seq::empty()),
            StopAction::Edit(i, t) => if i < s.len() { Some(s.update(i as int, t@)) } else { Some(s) },
        },
    }
}

/// The stop-sequence editor: the toggle-presence pattern over a list, with
/// element-wise add, remove and edit and a bulk clear.
pub fn edit_stop(stop: &mut Option<Vec<String>>, action: StopAction)
    ensures
        stop_view(*final(stop)) == stop_edited(stop_view(*old(stop)), action),
{
    let cur = stop.take();
    let ghost before = stop_view(cur);
    let next = match cur {
        None => match action {
            StopAction::Enable => {
                let v: Vec<String> = Vec::new();
                proof {
                    assert(v.deep_view() =~= Seq::<Seq<char>>::empty());
                }
                Some(v)
            },
            _ => None,
        },
        Some(mut v) => match action {
            StopAction::Enable => Some(v),
            StopAction::Disable => None,
            StopAction::Add => {
                let ghost s = v.deep_view();
                let e = String::new();
                v.push(e);
                proof {
                    assert(v.deep_view() =~= s.push(Seq::empty()));
                }
                Some(v)
            },
            StopAction::Remove(i) => {
                let ghost s = v.deep_view();
                if i < v.len() {
                    v.remove(i);
                    proof {
                        assert(v.deep_view() =~= s.remove(i as int));
                    }
                }
                Some(v)
            },
            StopAction::Clear => {
                v.clear();
                proof {
                    assert(v.deep_view() =~= Seq::<Seq<char>>::empty());
                }
                Some(v)
            },
            StopAction::Edit(i, t) => {
                let ghost s = v.deep_view();
                let ghost tv = t@;
                if i < v.len() {
                    v.remove(i);
                    v.insert(i, t);
                    proof {
                        assert(v.deep_view() =~= s.update(i as int, tv));
                    }
                }
                Some(v)
            },
        },
    };
    *stop = next;
}

} // verus!
