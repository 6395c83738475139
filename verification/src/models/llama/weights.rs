use vstd::prelude::*;

use crate::file_parser::gguf_file::GGUFFile;
use crate::file_parser::gguf_tensor_info::{self, spec_tensor_bytes_size, Error, TensorInfoModel};
use crate::kernels::tensor::{
    default_strides, dims_as_usize, from_info_fits, from_info_in_bounds, tensor_start,
    NonOwningTensor, TensorModel,
};
use vstd::string::StringExecFns;

verus! {

/// Why the model's weights could not be found in the file.
#[derive(Debug)]
pub enum WeightsError {
    MissingTensor(String),
    TensorBuild { name: String, source: gguf_tensor_info::Error },
}

/// The content of a weights error.
pub enum WeightsErrorModel {
    MissingTensor(Seq<char>),
    TensorBuild { name: Seq<char>, source: Error },
}

impl View for WeightsError {
    type V = WeightsErrorModel;

    open spec fn view(&self) -> WeightsErrorModel {
        match self {
            WeightsError::MissingTensor(n) => WeightsErrorModel::MissingTensor(n@),
            WeightsError::TensorBuild { name, source } => WeightsErrorModel::TensorBuild {
                name: name@,
                source: *source,
            },
        }
    }
}

/// The character of a decimal digit.
pub open spec fn digit_char(d: nat) -> char {
    if d == 0 { '0' }
    else if d == 1 { '1' }
    else if d == 2 { '2' }
    else if d == 3 { '3' }
    else if d == 4 { '4' }
    else if d == 5 { '5' }
    else if d == 6 { '6' }
    else if d == 7 { '7' }
    else if d == 8 { '8' }
    else { '9' }
}

/// The decimal digits of `n`, most significant first, without leading zeros.
pub open spec fn decimal(n: nat) -> Seq<char>
    decreases n,
{
    if n < 10 {
        seq![digit_char(n)]
    } else {
        decimal(n / 10).push(digit_char(n % 10))
    }
}

/// The value of a run of decimal digit characters, most significant first.
pub open spec fn numeral_value(s: Seq<char>) -> int
    decreases s.len(),
{
    if s.len() == 0 {
        0
    } else {
        numeral_value(s.drop_last()) * 10 + (s.last() as int - '0' as int)
    }
}

/// A decimal digit character, '0' to '9'.
pub open spec fn is_digit(c: char) -> bool {
    '0' as int <= c as int <= '9' as int
}

/// The character of digit `d` is the one whose code is that of '0' plus `d`.
pub proof fn lemma_digit_char(d: nat)
    requires
        d < 10,
    ensures
        digit_char(d) as int == '0' as int + d,
{
}

/// `decimal(n)` is the base-10 numeral of `n`: a non-empty run of digit
/// characters that reads back as `n`, with no leading zero.
pub proof fn lemma_decimal_numeral(n: nat)
    ensures
        decimal(n).len() > 0,
        forall|j: int| 0 <= j < decimal(n).len() ==> is_digit(#[trigger] decimal(n)[j]),
        numeral_value(decimal(n)) == n,
        decimal(n).len() > 1 ==> decimal(n)[0] != '0',
        n >= 10 ==> decimal(n).len() > 1,
    decreases n,
{
    if n < 10 {
        lemma_digit_char(n);
        let s = decimal(n);
        assert(s.drop_last() =~= Seq::<char>::empty());
        assert(s.last() == digit_char(n));
        assert(numeral_value(s) == numeral_value(s.drop_last()) * 10 + (s.last() as int - '0' as int));
    } else {
        let q = n / 10;
        let r = n % 10;
        lemma_decimal_numeral(q);
        lemma_digit_char(r);
        let s = decimal(n);
        assert(s == decimal(q).push(digit_char(r)));
        assert(s.drop_last() =~= decimal(q));
        assert(s.last() == digit_char(r));
        assert(numeral_value(s) == numeral_value(s.drop_last()) * 10 + (s.last() as int - '0' as int));
        assert(q * 10 + r == n) by (nonlinear_arith)
            requires
                q == n / 10,
                r == n % 10,
        ;
        assert(q >= 1);
        if q < 10 {
            lemma_digit_char(q);
            assert(decimal(q) == seq![digit_char(q)]);
            assert(decimal(q)[0] as int == '0' as int + q);
        }
        assert(s[0] == decimal(q)[0]);
        assert forall|j: int| 0 <= j < s.len() implies is_digit(#[trigger] s[j]) by {
            if j < s.len() - 1 {
                assert(s[j] == decimal(q)[j]);
            }
        }
    }
}

/// The name of a block tensor: `blk.{i}` followed by `suffix`.
pub open spec fn block_tensor_name(i: nat, suffix: Seq<char>) -> Seq<char> {
    "blk."@ + decimal(i) + suffix
}

/// The digit `d` as a one-character string.
fn digit_str(d: usize) -> (r: &'static str)
    requires
        d < 10,
    ensures
        r@ == seq![digit_char(d as nat)],
{
    proof {
        reveal_strlit("0");
        reveal_strlit("1");
        reveal_strlit("2");
        reveal_strlit("3");
        reveal_strlit("4");
        reveal_strlit("5");
        reveal_strlit("6");
        reveal_strlit("7");
        reveal_strlit("8");
        reveal_strlit("9");
    }
    match d {
        0 => "0",
        1 => "1",
        2 => "2",
        3 => "3",
        4 => "4",
        5 => "5",
        6 => "6",
        7 => "7",
        8 => "8",
        _ => "9",
    }
}

/// Appends the decimal digits of `n` to `s`.
fn push_decimal(s: &mut String, n: usize)
    ensures
        final(s)@ == old(s)@ + decimal(n as nat),
    decreases n,
{
    if n >= 10 {
        push_decimal(s, n / 10);
    }
    s.append(digit_str(n % 10));
    proof {
        if n >= 10 {
            assert(old(s)@ + decimal(n as nat) =~= old(s)@ + decimal((n / 10) as nat) + seq![
                digit_char((n % 10) as nat),
            ]);
        }
    }
}

/// `blk.{i}` followed by `suffix`.
fn block_name(i: usize, suffix: &str) -> (r: String)
    ensures
        r@ == block_tensor_name(i as nat, suffix@),
{
    let mut s = "blk.".to_owned();
    push_decimal(&mut s, i);
    s.append(suffix);
    s
}

#[derive(Debug)]
pub struct LlamaAttnWeights<'a> {
    pub attn_norm: NonOwningTensor<'a>,
    pub attn_q: NonOwningTensor<'a>,
    pub attn_k: NonOwningTensor<'a>,
    pub attn_v: NonOwningTensor<'a>,
    pub attn_output: NonOwningTensor<'a>,
}

#[derive(Debug)]
pub struct LlamaFfnWeights<'a> {
    pub ffn_norm: NonOwningTensor<'a>,
    pub ffn_gate: NonOwningTensor<'a>,
    pub ffn_up: NonOwningTensor<'a>,
    pub ffn_down: NonOwningTensor<'a>,
}

#[derive(Debug)]
pub struct LlamaBlock<'a> {
    pub attn: LlamaAttnWeights<'a>,
    pub ffn: LlamaFfnWeights<'a>,
}

#[derive(Debug)]
pub struct LlamaWeights<'a> {
    pub token_embeddings: NonOwningTensor<'a>,
    pub output_norm: NonOwningTensor<'a>,
    pub output: NonOwningTensor<'a>,
    pub blocks: Vec<LlamaBlock<'a>>,
}

impl<'a> View for LlamaBlock<'a> {
    type V = Seq<TensorModel>;

    /// The block's nine tensors in file order.
    open spec fn view(&self) -> Seq<TensorModel> {
        seq![
            self.attn.attn_norm@,
            self.attn.attn_q@,
            self.attn.attn_k@,
            self.attn.attn_v@,
            self.attn.attn_output@,
            self.ffn.ffn_norm@,
            self.ffn.ffn_gate@,
            self.ffn.ffn_up@,
            self.ffn.ffn_down@,
        ]
    }
}

/// The content of a model's weights.
pub struct WeightsModel {
    pub token_embeddings: TensorModel,
    pub output_norm: TensorModel,
    pub output: TensorModel,
    pub blocks: Seq<Seq<TensorModel>>,
}

impl<'a> View for LlamaWeights<'a> {
    type V = WeightsModel;

    open spec fn view(&self) -> WeightsModel {
        WeightsModel {
            token_embeddings: self.token_embeddings@,
            output_norm: self.output_norm@,
            output: self.output@,
            blocks: Seq::new(self.blocks@.len(), |i: int| self.blocks@[i]@),
        }
    }
}

/// The name endings of a block's nine tensors, in load order.
pub open spec fn block_suffixes() -> Seq<Seq<char>> {
    seq![
        ".attn_norm.weight"@,
        ".attn_q.weight"@,
        ".attn_k.weight"@,
        ".attn_v.weight"@,
        ".attn_output.weight"@,
        ".ffn_norm.weight"@,
        ".ffn_gate.weight"@,
        ".ffn_up.weight"@,
        ".ffn_down.weight"@,
    ]
}

fn block_suffix(k: usize) -> (r: &'static str)
    requires
        k < 9,
    ensures
        r@ == block_suffixes()[k as int],
{
    match k {
        0 => ".attn_norm.weight",
        1 => ".attn_q.weight",
        2 => ".attn_k.weight",
        3 => ".attn_v.weight",
        4 => ".attn_output.weight",
        5 => ".ffn_norm.weight",
        6 => ".ffn_gate.weight",
        7 => ".ffn_up.weight",
        _ => ".ffn_down.weight",
    }
}

/// Loading one named tensor: `None` where the byte range or the strides
/// would not fit (the loader cannot go on there), else the tensor or why it
/// is unusable.
pub type LoadOutcome<T> = Option<Result<T, WeightsErrorModel>>;

/// The tensor `name` of the directory `tensors`, in `mmap`.
pub open spec fn spec_load_tensor(
    mmap: Seq<u8>,
    tensors: Map<Seq<char>, TensorInfoModel>,
    off: u64,
    name: Seq<char>,
) -> LoadOutcome<TensorModel> {
    if !tensors.contains_key(name) {
        Some(Err(WeightsErrorModel::MissingTensor(name)))
    } else {
        let info = tensors[name];
        if !from_info_in_bounds(
            mmap.len() as int,
            info.offset,
            info.ggml_type,
            info.numel,
            info.dimensions,
            off,
        ) {
            None
        } else {
            match spec_tensor_bytes_size(info.ggml_type, info.numel) {
                Err(e) => Some(Err(WeightsErrorModel::TensorBuild { name, source: e })),
                Ok(size) => {
                    let start = tensor_start(info.offset, off);
                    let shape = dims_as_usize(info.dimensions);
                    Some(
                        Ok(
                            TensorModel {
                                data: mmap.subrange(start, start + size as usize),
                                dtype: info.ggml_type,
                                shape,
                                strides: default_strides(shape),
                            },
                        ),
                    )
                },
            }
        }
    }
}

/// The first `k` tensors of block `i`, in load order.
pub open spec fn spec_load_block_parts(
    mmap: Seq<u8>,
    tensors: Map<Seq<char>, TensorInfoModel>,
    off: u64,
    i: nat,
    k: nat,
) -> LoadOutcome<Seq<TensorModel>>
    decreases k,
{
    if k == 0 {
        Some(Ok(Seq::empty()))
    } else {
        match spec_load_block_parts(mmap, tensors, off, i, (k - 1) as nat) {
            None => None,
            Some(Err(e)) => Some(Err(e)),
            Some(Ok(ts)) => match spec_load_tensor(
                mmap,
                tensors,
                off,
                block_tensor_name(i, block_suffixes()[k - 1]),
            ) {
                None => None,
                Some(Err(e)) => Some(Err(e)),
                Some(Ok(t)) => Some(Ok(ts.push(t))),
            },
        }
    }
}

/// The first `n` blocks.
pub open spec fn spec_load_blocks(
    mmap: Seq<u8>,
    tensors: Map<Seq<char>, TensorInfoModel>,
    off: u64,
    n: nat,
) -> LoadOutcome<Seq<Seq<TensorModel>>>
    decreases n,
{
    if n == 0 {
        Some(Ok(Seq::empty()))
    } else {
        match spec_load_blocks(mmap, tensors, off, (n - 1) as nat) {
            None => None,
            Some(Err(e)) => Some(Err(e)),
            Some(Ok(bs)) => match spec_load_block_parts(mmap, tensors, off, (n - 1) as nat, 9) {
                None => None,
                Some(Err(e)) => Some(Err(e)),
                Some(Ok(b)) => Some(Ok(bs.push(b))),
            },
        }
    }
}

/// All of a model's weights: the blocks first, then the embeddings, the
/// output norm, and the LM head, which falls back to the embeddings when
/// `output.weight` is missing; an `output.weight` that is present but
/// cannot be built is an error.
pub open spec fn spec_load_weights(
    mmap: Seq<u8>,
    tensors: Map<Seq<char>, TensorInfoModel>,
    off: u64,
    n_blocks: nat,
) -> LoadOutcome<WeightsModel> {
    match spec_load_blocks(mmap, tensors, off, n_blocks) {
        None => None,
        Some(Err(e)) => Some(Err(e)),
        Some(Ok(blocks)) => match spec_load_tensor(mmap, tensors, off, "token_embd.weight"@) {
            None => None,
            Some(Err(e)) => Some(Err(e)),
            Some(Ok(tok)) => match spec_load_tensor(mmap, tensors, off, "output_norm.weight"@) {
                None => None,
                Some(Err(e)) => Some(Err(e)),
                Some(Ok(norm)) => {
                    let out = match spec_load_tensor(mmap, tensors, off, "output.weight"@) {
                        Some(Err(WeightsErrorModel::MissingTensor(_))) => spec_load_tensor(
                            mmap,
                            tensors,
                            off,
                            "token_embd.weight"@,
                        ),
                        other => other,
                    };
                    match out {
                        None => None,
                        Some(Err(e)) => Some(Err(e)),
                        Some(Ok(o)) => Some(
                            Ok(
                                WeightsModel {
                                    token_embeddings: tok,
                                    output_norm: norm,
                                    output: o,
                                    blocks,
                                },
                            ),
                        ),
                    }
                },
            },
        },
    }
}

/// A load outcome seen through views.
pub open spec fn outcome_view<T: View>(r: Option<Result<T, WeightsError>>) -> LoadOutcome<T::V> {
    match r {
        None => None,
        Some(Ok(t)) => Some(Ok(t@)),
        Some(Err(e)) => Some(Err(e@)),
    }
}

/// A result seen through views.
pub open spec fn result_view<T: View>(r: Result<T, WeightsError>) -> Result<T::V, WeightsErrorModel> {
    match r {
        Ok(t) => Ok(t@),
        Err(e) => Err(e@),
    }
}

/// Loads the tensor `name`.
fn load_tensor<'a>(mmap: &'a [u8], gguf: &GGUFFile, name: &str) -> (r: Option<
    Result<NonOwningTensor<'a>, WeightsError>,
>)
    ensures
        outcome_view(r) == spec_load_tensor(
            mmap@,
            gguf.tensor_info@,
            gguf.tensor_data_offset,
            name@,
        ),
{
    match gguf.tensor_info.tensors_map.get(name) {
        None => Some(Err(WeightsError::MissingTensor(name.to_owned()))),
        Some(info) => {
            if !from_info_fits(mmap.len(), info, gguf.tensor_data_offset) {
                return None;
            }
            match NonOwningTensor::from_info(mmap, info, gguf.tensor_data_offset) {
                Ok(t) => Some(Ok(t)),
                Err(source) => Some(Err(WeightsError::TensorBuild { name: name.to_owned(), source })),
            }
        },
    }
}

/// Loads block `i`.
fn load_block<'a>(mmap: &'a [u8], gguf: &GGUFFile, i: usize) -> (r: Option<
    Result<LlamaBlock<'a>, WeightsError>,
>)
    ensures
        outcome_view(r) == spec_load_block_parts(
            mmap@,
            gguf.tensor_info@,
            gguf.tensor_data_offset,
            i as nat,
            9,
        ),
{
    let ghost tensors = gguf.tensor_info@;
    let ghost off = gguf.tensor_data_offset;
    let mut parts: Vec<NonOwningTensor<'a>> = Vec::new();
    let mut k: usize = 0;
    proof {
        assert(Seq::new(parts@.len(), |j: int| parts@[j]@) =~= Seq::<TensorModel>::empty());
    }
    while k < 9
        invariant
            k <= 9,
            parts@.len() == k,
            tensors == gguf.tensor_info@,
            off == gguf.tensor_data_offset,
            spec_load_block_parts(mmap@, tensors, off, i as nat, k as nat) == Some(
                Ok::<Seq<TensorModel>, WeightsErrorModel>(
                    Seq::new(parts@.len(), |j: int| parts@[j]@),
                ),
            ),
        decreases 9 - k,
    {
        let name = block_name(i, block_suffix(k));
        let ghost before = Seq::new(parts@.len(), |j: int| parts@[j]@);
        match load_tensor(mmap, gguf, name.as_str()) {
            None => {
                proof {
                    lemma_block_parts_stop(mmap@, tensors, off, i as nat, (k + 1) as nat, 9);
                }
                return None;
            },
            Some(Err(e)) => {
                proof {
                    lemma_block_parts_stop(mmap@, tensors, off, i as nat, (k + 1) as nat, 9);
                }
                return Some(Err(e));
            },
            Some(Ok(t)) => {
                parts.push(t);
                proof {
                    assert(Seq::new(parts@.len(), |j: int| parts@[j]@) =~= before.push(t@));
                }
            },
        }
        k = k + 1;
    }
    let ghost all = Seq::new(parts@.len(), |j: int| parts@[j]@);
    let ffn_down = parts.pop().unwrap();
    let ffn_up = parts.pop().unwrap();
    let ffn_gate = parts.pop().unwrap();
    let ffn_norm = parts.pop().unwrap();
    let attn_output = parts.pop().unwrap();
    let attn_v = parts.pop().unwrap();
    let attn_k = parts.pop().unwrap();
    let attn_q = parts.pop().unwrap();
    let attn_norm = parts.pop().unwrap();
    let block = LlamaBlock {
        attn: LlamaAttnWeights { attn_norm, attn_q, attn_k, attn_v, attn_output },
        ffn: LlamaFfnWeights { ffn_norm, ffn_gate, ffn_up, ffn_down },
    };
    proof {
        assert(block@ =~= all);
    }
    Some(Ok(block))
}

/// Once loading the first `k` tensors of a block stops, loading more stops
/// the same way.
proof fn lemma_block_parts_stop(
    mmap: Seq<u8>,
    tensors: Map<Seq<char>, TensorInfoModel>,
    off: u64,
    i: nat,
    k: nat,
    m: nat,
)
    requires
        k <= m,
        !(spec_load_block_parts(mmap, tensors, off, i, k) matches Some(Ok(_))),
    ensures
        spec_load_block_parts(mmap, tensors, off, i, m) == spec_load_block_parts(
            mmap,
            tensors,
            off,
            i,
            k,
        ),
    decreases m,
{
    if m > k {
        lemma_block_parts_stop(mmap, tensors, off, i, k, (m - 1) as nat);
    }
}

/// Once loading the first `n` blocks stops, loading more stops the same way.
proof fn lemma_blocks_stop(
    mmap: Seq<u8>,
    tensors: Map<Seq<char>, TensorInfoModel>,
    off: u64,
    n: nat,
    m: nat,
)
    requires
        n <= m,
        !(spec_load_blocks(mmap, tensors, off, n) matches Some(Ok(_))),
    ensures
        spec_load_blocks(mmap, tensors, off, m) == spec_load_blocks(mmap, tensors, off, n),
    decreases m,
{
    if m > n {
        lemma_blocks_stop(mmap, tensors, off, n, (m - 1) as nat);
    }
}

impl<'a> LlamaWeights<'a> {
    /// Loads the weights, or returns `None` where a tensor's byte range or
    /// strides would not fit in `mmap` (the point at which `from_gguf`
    /// cannot go on).
    pub fn try_from_gguf(mmap: &'a [u8], gguf: &GGUFFile, n_blocks: usize) -> (r: Option<
        Result<Self, WeightsError>,
    >)
        ensures
            outcome_view(r) == spec_load_weights(
                mmap@,
                gguf.tensor_info@,
                gguf.tensor_data_offset,
                n_blocks as nat,
            ),
            r matches Some(Ok(w)) ==> w.blocks@.len() == n_blocks && forall|i: int|
                0 <= i < n_blocks ==> block_loaded_by_name(
                    mmap@,
                    gguf.tensor_info@,
                    gguf.tensor_data_offset,
                    i as nat,
                    #[trigger] w.blocks@[i],
                ),
    {
        let ghost tensors = gguf.tensor_info@;
        let ghost off = gguf.tensor_data_offset;
        let mut blocks: Vec<LlamaBlock<'a>> = Vec::new();
        let mut i: usize = 0;
        proof {
            assert(Seq::new(blocks@.len(), |j: int| blocks@[j]@) =~= Seq::<Seq<TensorModel>>::empty());
        }
        while i < n_blocks
            invariant
                i <= n_blocks,
                tensors == gguf.tensor_info@,
                off == gguf.tensor_data_offset,
                spec_load_blocks(mmap@, tensors, off, i as nat) == Some(
                    Ok::<Seq<Seq<TensorModel>>, WeightsErrorModel>(
                        Seq::new(blocks@.len(), |j: int| blocks@[j]@),
                    ),
                ),
            decreases n_blocks - i,
        {
            let ghost before = Seq::new(blocks@.len(), |j: int| blocks@[j]@);
            match load_block(mmap, gguf, i) {
                None => {
                    proof {
                        lemma_blocks_stop(mmap@, tensors, off, (i + 1) as nat, n_blocks as nat);
                    }
                    return None;
                },
                Some(Err(e)) => {
                    proof {
                        lemma_blocks_stop(mmap@, tensors, off, (i + 1) as nat, n_blocks as nat);
                    }
                    return Some(Err(e));
                },
                Some(Ok(b)) => {
                    blocks.push(b);
                    proof {
                        assert(Seq::new(blocks@.len(), |j: int| blocks@[j]@) =~= before.push(b@));
                    }
                },
            }
            i = i + 1;
        }
        let token_embeddings = match load_tensor(mmap, gguf, "token_embd.weight") {
            None => return None,
            Some(Err(e)) => return Some(Err(e)),
            Some(Ok(t)) => t,
        };
        let output_norm = match load_tensor(mmap, gguf, "output_norm.weight") {
            None => return None,
            Some(Err(e)) => return Some(Err(e)),
            Some(Ok(t)) => t,
        };
        let output = match load_tensor(mmap, gguf, "output.weight") {
            Some(Err(WeightsError::MissingTensor(_))) => match load_tensor(
                mmap,
                gguf,
                "token_embd.weight",
            ) {
                None => return None,
                Some(Err(e)) => return Some(Err(e)),
                Some(Ok(t)) => t,
            },
            Some(Err(e)) => return Some(Err(e)),
            None => return None,
            Some(Ok(t)) => t,
        };
        let weights = Self { token_embeddings, output_norm, output, blocks };
        proof {
            lemma_weights_by_name(mmap@, tensors, off, n_blocks as nat, weights);
        }
        Some(Ok(weights))
    }

    /// Loads the weights of `n_blocks` blocks and the embedding, output norm
    /// and LM head tensors. Some variants tie the LM head to the input
    /// embeddings: when `output.weight` is missing, `token_embd.weight` is
    /// used in its place. An `output.weight` that is present but cannot be
    /// built is reported as its `TensorBuild` error.
    pub fn from_gguf(mmap: &'a [u8], gguf: &GGUFFile, n_blocks: usize) -> (r: Result<
        Self,
        WeightsError,
    >)
        requires
            spec_load_weights(mmap@, gguf.tensor_info@, gguf.tensor_data_offset, n_blocks as nat)
                is Some,
        ensures
            Some(result_view(r)) == spec_load_weights(
                mmap@,
                gguf.tensor_info@,
                gguf.tensor_data_offset,
                n_blocks as nat,
            ),
    {
        match Self::try_from_gguf(mmap, gguf, n_blocks) {
            Some(r) => r,
            None => Err(WeightsError::MissingTensor("token_embd.weight".to_owned())),
        }
    }
}

/// The directory entry `name` loads as the tensor `t`.
pub open spec fn loads_as(
    mmap: Seq<u8>,
    tensors: Map<Seq<char>, TensorInfoModel>,
    off: u64,
    name: Seq<char>,
    t: TensorModel,
) -> bool {
    spec_load_tensor(mmap, tensors, off, name) == Some(Ok::<TensorModel, WeightsErrorModel>(t))
}

/// Each weight of block `i` is the tensor of the entry named after it:
/// `blk.{i}.attn_norm.weight` for `attn_norm`, and so on for all nine.
pub open spec fn block_loaded_by_name(
    mmap: Seq<u8>,
    tensors: Map<Seq<char>, TensorInfoModel>,
    off: u64,
    i: nat,
    b: LlamaBlock,
) -> bool {
    &&& loads_as(mmap, tensors, off, block_tensor_name(i, ".attn_norm.weight"@), b.attn.attn_norm@)
    &&& loads_as(mmap, tensors, off, block_tensor_name(i, ".attn_q.weight"@), b.attn.attn_q@)
    &&& loads_as(mmap, tensors, off, block_tensor_name(i, ".attn_k.weight"@), b.attn.attn_k@)
    &&& loads_as(mmap, tensors, off, block_tensor_name(i, ".attn_v.weight"@), b.attn.attn_v@)
    &&& loads_as(
        mmap,
        tensors,
        off,
        block_tensor_name(i, ".attn_output.weight"@),
        b.attn.attn_output@,
    )
    &&& loads_as(mmap, tensors, off, block_tensor_name(i, ".ffn_norm.weight"@), b.ffn.ffn_norm@)
    &&& loads_as(mmap, tensors, off, block_tensor_name(i, ".ffn_gate.weight"@), b.ffn.ffn_gate@)
    &&& loads_as(mmap, tensors, off, block_tensor_name(i, ".ffn_up.weight"@), b.ffn.ffn_up@)
    &&& loads_as(mmap, tensors, off, block_tensor_name(i, ".ffn_down.weight"@), b.ffn.ffn_down@)
}

/// The first `k` loaded parts of block `i` are the entries named by the
/// first `k` suffixes.
proof fn lemma_block_parts_loaded(
    mmap: Seq<u8>,
    tensors: Map<Seq<char>, TensorInfoModel>,
    off: u64,
    i: nat,
    k: nat,
    ts: Seq<TensorModel>,
)
    requires
        k <= 9,
        spec_load_block_parts(mmap, tensors, off, i, k) == Some(
            Ok::<Seq<TensorModel>, WeightsErrorModel>(ts),
        ),
    ensures
        ts.len() == k,
        forall|j: int|
            0 <= j < k ==> loads_as(
                mmap,
                tensors,
                off,
                block_tensor_name(i, block_suffixes()[j]),
                #[trigger] ts[j],
            ),
    decreases k,
{
    if k > 0 {
        let prev = spec_load_block_parts(mmap, tensors, off, i, (k - 1) as nat);
        if let Some(Ok(ps)) = prev {
            lemma_block_parts_loaded(mmap, tensors, off, i, (k - 1) as nat, ps);
            assert(ts == ps.push(ts.last()));
            assert forall|j: int| 0 <= j < k implies loads_as(
                mmap,
                tensors,
                off,
                block_tensor_name(i, block_suffixes()[j]),
                #[trigger] ts[j],
            ) by {
                if j < k - 1 {
                    assert(ts[j] == ps[j]);
                }
            }
        }
    }
}

/// The first `n` loaded blocks are each nine tensors, named by block index
/// and suffix.
proof fn lemma_blocks_loaded(
    mmap: Seq<u8>,
    tensors: Map<Seq<char>, TensorInfoModel>,
    off: u64,
    n: nat,
    bs: Seq<Seq<TensorModel>>,
)
    requires
        spec_load_blocks(mmap, tensors, off, n) == Some(
            Ok::<Seq<Seq<TensorModel>>, WeightsErrorModel>(bs),
        ),
    ensures
        bs.len() == n,
        forall|i: int| 0 <= i < n ==> #[trigger] bs[i].len() == 9,
        forall|i: int, j: int|
            0 <= i < n && 0 <= j < 9 ==> loads_as(
                mmap,
                tensors,
                off,
                block_tensor_name(i as nat, block_suffixes()[j]),
                #[trigger] bs[i][j],
            ),
    decreases n,
{
    if n > 0 {
        let prev = spec_load_blocks(mmap, tensors, off, (n - 1) as nat);
        if let Some(Ok(ps)) = prev {
            lemma_blocks_loaded(mmap, tensors, off, (n - 1) as nat, ps);
            let last = spec_load_block_parts(mmap, tensors, off, (n - 1) as nat, 9);
            if let Some(Ok(b)) = last {
                lemma_block_parts_loaded(mmap, tensors, off, (n - 1) as nat, 9, b);
                assert(bs == ps.push(b));
                assert forall|i: int| 0 <= i < n implies #[trigger] bs[i].len() == 9 by {
                    if i < n - 1 {
                        assert(bs[i] == ps[i]);
                    }
                }
                assert forall|i: int, j: int| 0 <= i < n && 0 <= j < 9 implies loads_as(
                    mmap,
                    tensors,
                    off,
                    block_tensor_name(i as nat, block_suffixes()[j]),
                    #[trigger] bs[i][j],
                ) by {
                    if i < n - 1 {
                        assert(bs[i] == ps[i]);
                        assert(bs[i][j] == ps[i][j]);
                    } else {
                        assert(bs[i] == b);
                        assert(bs[i][j] == b[j]);
                    }
                }
            }
        }
    }
}

/// Loaded weights are the tensors named after their fields: every weight of
/// block `i` is the entry `blk.{i}.` followed by the weight's name, the
/// embeddings are `token_embd.weight`, the output norm is
/// `output_norm.weight`, and the LM head is `output.weight`, or, when that
/// entry is missing, `token_embd.weight`.
pub proof fn lemma_weights_by_name(
    mmap: Seq<u8>,
    tensors: Map<Seq<char>, TensorInfoModel>,
    off: u64,
    n_blocks: nat,
    w: LlamaWeights,
)
    requires
        spec_load_weights(mmap, tensors, off, n_blocks) == Some(
            Ok::<WeightsModel, WeightsErrorModel>(w@),
        ),
    ensures
        w.blocks@.len() == n_blocks,
        forall|i: int|
            0 <= i < n_blocks ==> block_loaded_by_name(
                mmap,
                tensors,
                off,
                i as nat,
                #[trigger] w.blocks@[i],
            ),
        loads_as(mmap, tensors, off, "token_embd.weight"@, w.token_embeddings@),
        loads_as(mmap, tensors, off, "output_norm.weight"@, w.output_norm@),
        loads_as(mmap, tensors, off, "output.weight"@, w.output@) || (spec_load_tensor(
            mmap,
            tensors,
            off,
            "output.weight"@,
        ) matches Some(Err(WeightsErrorModel::MissingTensor(_))) && loads_as(
            mmap,
            tensors,
            off,
            "token_embd.weight"@,
            w.output@,
        )),
{
    let bs = w@.blocks;
    if let Some(Ok(blocks)) = spec_load_blocks(mmap, tensors, off, n_blocks) {
        assert(blocks == bs);
        lemma_blocks_loaded(mmap, tensors, off, n_blocks, bs);
        assert(w.blocks@.len() == bs.len());
        let sfx = block_suffixes();
        assert(sfx[0] == ".attn_norm.weight"@);
        assert(sfx[1] == ".attn_q.weight"@);
        assert(sfx[2] == ".attn_k.weight"@);
        assert(sfx[3] == ".attn_v.weight"@);
        assert(sfx[4] == ".attn_output.weight"@);
        assert(sfx[5] == ".ffn_norm.weight"@);
        assert(sfx[6] == ".ffn_gate.weight"@);
        assert(sfx[7] == ".ffn_up.weight"@);
        assert(sfx[8] == ".ffn_down.weight"@);
        assert forall|i: int| 0 <= i < n_blocks implies block_loaded_by_name(
            mmap,
            tensors,
            off,
            i as nat,
            #[trigger] w.blocks@[i],
        ) by {
            let b = w.blocks@[i];
            assert(bs[i] == b@);
            assert(bs[i][0] == b.attn.attn_norm@);
            assert(bs[i][1] == b.attn.attn_q@);
            assert(bs[i][2] == b.attn.attn_k@);
            assert(bs[i][3] == b.attn.attn_v@);
            assert(bs[i][4] == b.attn.attn_output@);
            assert(bs[i][5] == b.ffn.ffn_norm@);
            assert(bs[i][6] == b.ffn.ffn_gate@);
            assert(bs[i][7] == b.ffn.ffn_up@);
            assert(bs[i][8] == b.ffn.ffn_down@);
        }
    }
}

} // verus!
