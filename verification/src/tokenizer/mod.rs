//! Hugging Face tokenizer support: the tokenizer runtime together with its
//! configuration and resolved special-token IDs.

pub mod config;
pub mod special_tokens;

use vstd::prelude::*;

use crate::Error;
use tokenizers::Tokenizer as HfTokenizer;

pub use config::{PaddingSide, TokenizerConfig};
pub use special_tokens::{SpecialToken, SpecialTokenIds, SpecialTokensMap};

verus! {

/// The Hugging Face tokenizer runtime, carried through opaquely.
#[verifier::external_type_specification]
#[verifier::external_body]
pub struct ExHfTokenizer(HfTokenizer);

/// `Clone` of the tokenizer runtime (a field-by-field copy); nothing is
/// claimed about the copy.
pub assume_specification[ <HfTokenizer as Clone>::clone ](runtime: &HfTokenizer) -> HfTokenizer;

/// The token-to-ID lookup table a tokenizer runtime holds: its added tokens
/// and, for other tokens, its model's vocabulary.
pub uninterp spec fn vocabulary_ids(runtime: HfTokenizer) -> Map<Seq<char>, u32>;

/// The ID-to-token lookup table a tokenizer runtime holds: its added tokens
/// and, for other IDs, its model's vocabulary.
pub uninterp spec fn vocabulary_tokens(runtime: HfTokenizer) -> Map<u32, Seq<char>>;

/// `tokenizers::Tokenizer::token_to_id`: a lookup of `token` in the runtime's
/// added tokens, then in its model's vocabulary. It reads the runtime without
/// changing it, so its answer is the entry of `token` in the runtime's
/// token-to-ID table, or nothing when the table has none.
#[verifier::external_body]
fn vocabulary_id(inner: &HfTokenizer, token: &str) -> (r: Option<u32>)
    ensures
        match r {
            Some(id) => vocabulary_ids(*inner).contains_key(token@) && vocabulary_ids(*inner)[token@] == id,
            None => !vocabulary_ids(*inner).contains_key(token@),
        },
{
    inner.token_to_id(token)
}

/// `tokenizers::Tokenizer::id_to_token`: a lookup of `id` in the runtime's
/// added tokens, then in its model's vocabulary. It reads the runtime without
/// changing it, so its answer is the entry of `id` in the runtime's
/// ID-to-token table, or nothing when the table has none.
#[verifier::external_body]
fn vocabulary_token(inner: &HfTokenizer, id: u32) -> (r: Option<String>)
    ensures
        match r {
            Some(token) => vocabulary_tokens(*inner).contains_key(id) && token@ == vocabulary_tokens(*inner)[id],
            None => !vocabulary_tokens(*inner).contains_key(id),
        },
{
    inner.id_to_token(id)
}

/// `tokenizers::Tokenizer::encode` with special tokens added, keeping the IDs
/// of the resulting encoding; a failure is returned as its message. The IDs
/// come out of the runtime's whole pipeline (normalizer, pre-tokenizer, model,
/// post-processor), which is opaque to the library and is no lookup table, so
/// nothing is claimed about them.
#[verifier::external_body]
fn encode_text(inner: &HfTokenizer, text: &str) -> Result<Vec<u32>, String> {
    match inner.encode(text, true) {
        Ok(encoding) => Ok(encoding.get_ids().to_vec()),
        Err(error) => Err(error.to_string()),
    }
}

/// What `tokenizers::Tokenizer::decode` gives for `ids` and the special-token
/// flag: the decoded text, or the message of the error it reports.
pub uninterp spec fn decoded(runtime: HfTokenizer, ids: Seq<u32>, skip_special_tokens: bool) -> Result<
    Seq<char>,
    Seq<char>,
>;

/// `tokenizers::Tokenizer::decode`: looks each ID up in the runtime's tables,
/// drops special tokens when asked, and runs the runtime's decoder; a failure
/// is returned as its message. It reads the runtime without changing it and
/// draws on nothing else, so its outcome is `decoded` of the runtime, the IDs
/// and the flag.
#[verifier::external_body]
fn decode_ids(inner: &HfTokenizer, ids: &[u32], skip_special_tokens: bool) -> (r: Result<String, String>)
    ensures
        match decoded(*inner, ids@, skip_special_tokens) {
            Ok(text) => r matches Ok(t) && t@ == text,
            Err(message) => r matches Err(m) && m@ == message,
        },
{
    match inner.decode(ids, skip_special_tokens) {
        Ok(text) => Ok(text),
        Err(error) => Err(error.to_string()),
    }
}

/// Whether every sequence of a batch decodes.
pub open spec fn all_decoded(runtime: HfTokenizer, batch: Seq<Vec<u32>>, skip_special_tokens: bool) -> bool {
    forall|i: int| 0 <= i < batch.len() ==> (#[trigger] decoded(runtime, batch[i]@, skip_special_tokens)) is Ok
}

/// Whether `texts` are the decodings of the sequences of a batch, in order.
pub open spec fn decoded_texts(
    runtime: HfTokenizer,
    batch: Seq<Vec<u32>>,
    skip_special_tokens: bool,
    texts: Seq<String>,
) -> bool {
    &&& texts.len() == batch.len()
    &&& forall|i: int| 0 <= i < batch.len() ==> decoded(runtime, batch[i]@, skip_special_tokens)
        == Ok::<Seq<char>, Seq<char>>(#[trigger] texts[i]@)
}

/// Whether `message` is the decoding error of some sequence of a batch.
pub open spec fn some_decoding_error(
    runtime: HfTokenizer,
    batch: Seq<Vec<u32>>,
    skip_special_tokens: bool,
    message: Seq<char>,
) -> bool {
    exists|i: int| 0 <= i < batch.len() && #[trigger] decoded(runtime, batch[i]@, skip_special_tokens)
        == Err::<Seq<char>, Seq<char>>(message)
}

/// `tokenizers::Tokenizer::decode_batch`: decodes every sequence with
/// `decode` (possibly in parallel) and collects the results. It succeeds
/// exactly when every sequence decodes, with the texts in order; otherwise it
/// reports the error of one of the sequences that failed, which one is left
/// open.
#[verifier::external_body]
fn decode_id_batch(inner: &HfTokenizer, batch: &[Vec<u32>], skip_special_tokens: bool) -> (r: Result<Vec<String>, String>)
    ensures
        r is Ok <==> all_decoded(*inner, batch@, skip_special_tokens),
        r matches Ok(texts) ==> decoded_texts(*inner, batch@, skip_special_tokens, texts@),
        r matches Err(m) ==> some_decoding_error(*inner, batch@, skip_special_tokens, m@),
{
    let slices: Vec<&[u32]> = batch.iter().map(|ids| ids.as_slice()).collect();
    match inner.decode_batch(&slices, skip_special_tokens) {
        Ok(texts) => Ok(texts),
        Err(error) => Err(error.to_string()),
    }
}

/// The tokenizer's `u32` IDs of valid model token IDs, one for one.
pub open spec fn tokenizer_ids(ids: Seq<i64>) -> Seq<u32> {
    ids.map_values(|id: i64| id as u32)
}

/// Encoding keeps every ID the runtime gives: the IDs `encode` returns are,
/// position by position, the IDs of one encoding the runtime can give for the
/// text, so none is dropped, merged, reordered or added, and two positions
/// hold the same ID exactly when they do in the runtime's encoding.
pub proof fn lemma_encoding_keeps_every_runtime_id(tokenizer: Tokenizer, text: &str, ids: Seq<i64>)
    requires
        tokenizer.encodes(text, ids),
    ensures
        exists|raw: Seq<u32>| {
            &&& tokenizer.runtime_encodes(text, raw)
            &&& ids.len() == raw.len()
            &&& forall|i: int| 0 <= i < raw.len() ==> ids[i] == #[trigger] raw[i] as i64
            &&& forall|i: int, j: int| 0 <= i < raw.len() && 0 <= j < raw.len() ==> (#[trigger] raw[i]
                == #[trigger] raw[j] <==> ids[i] == ids[j])
        },
{
    let raw = choose|raw: Seq<u32>| tokenizer.runtime_encodes(text, raw) && ids.len() == raw.len() && forall|i: int|
        0 <= i < raw.len() ==> ids[i] == #[trigger] raw[i] as i64;
    assert forall|i: int, j: int| 0 <= i < raw.len() && 0 <= j < raw.len() implies (#[trigger] raw[i]
        == #[trigger] raw[j] <==> ids[i] == ids[j]) by {
        assert(ids[i] == raw[i] as i64);
        assert(ids[j] == raw[j] as i64);
    }
}

/// Whether a batch decoding result reports the decodings of the sequences: it
/// succeeds exactly when each sequence decodes, with the texts in order, and
/// otherwise carries the message of one sequence that failed.
pub open spec fn reports_batch_decoding(
    tokenizer: Tokenizer,
    batch: Seq<Vec<i64>>,
    skip_special_tokens: bool,
    r: Result<Vec<String>, Error>,
) -> bool {
    &&& r is Ok <==> forall|i: int| 0 <= i < batch.len() ==> (#[trigger] tokenizer.decoding(batch[i]@,
        skip_special_tokens)) is Ok
    &&& r matches Ok(texts) ==> texts@.len() == batch.len() && forall|i: int| 0 <= i < batch.len()
        ==> tokenizer.decoding(batch[i]@, skip_special_tokens) == Ok::<Seq<char>, Seq<char>>(#[trigger] texts@[i]@)
    &&& r matches Err(e) ==> e matches Error::TokenizerDecoding { reason } && exists|i: int| 0 <= i < batch.len()
        && #[trigger] tokenizer.decoding(batch[i]@, skip_special_tokens) == Err::<Seq<char>, Seq<char>>(reason@)
}

/// Whether a decoding result reports a decoding outcome: the text on success,
/// a `TokenizerDecoding` error with the runtime's message otherwise.
pub open spec fn reports_decoding(outcome: Result<Seq<char>, Seq<char>>, r: Result<String, Error>) -> bool {
    match outcome {
        Ok(text) => r matches Ok(t) && t@ == text,
        Err(message) => r matches Err(Error::TokenizerDecoding { reason }) && reason@ == message,
    }
}

/// The token a special-token slot resolves to: the entry of
/// `special_tokens_map.json` when present, else the configured token.
pub open spec fn preferred_token(from_map: Option<SpecialToken>, configured: Option<Seq<char>>) -> Option<Seq<char>> {
    match from_map {
        Some(token) => Some(token.text()),
        None => configured,
    }
}

/// The entry of a special-tokens map selected by `field`, if the map exists.
pub open spec fn map_entry(map: Option<SpecialTokensMap>, field: spec_fn(SpecialTokensMap) -> Option<SpecialToken>) -> Option<
    SpecialToken,
> {
    match map {
        Some(m) => field(m),
        None => None,
    }
}

/// The beginning-of-sequence token the tokenizer resolves.
pub open spec fn chosen_bos(config: TokenizerConfig, map: Option<SpecialTokensMap>) -> Option<Seq<char>> {
    preferred_token(
        map_entry(map, |m: SpecialTokensMap| m.bos_token),
        match config.bos_token {
            Some(t) => Some(t@),
            None => None,
        },
    )
}

/// The end-of-sequence token the tokenizer resolves.
pub open spec fn chosen_eos(config: TokenizerConfig, map: Option<SpecialTokensMap>) -> Seq<char> {
    preferred_token(map_entry(map, |m: SpecialTokensMap| m.eos_token), Some(config.eos_token@))->0
}

/// The padding token the tokenizer resolves.
pub open spec fn chosen_pad(config: TokenizerConfig, map: Option<SpecialTokensMap>) -> Seq<char> {
    preferred_token(map_entry(map, |m: SpecialTokensMap| m.pad_token), Some(config.pad_token@))->0
}

/// The unknown-token marker the tokenizer resolves.
pub open spec fn chosen_unk(config: TokenizerConfig, map: Option<SpecialTokensMap>) -> Option<Seq<char>> {
    preferred_token(
        map_entry(map, |m: SpecialTokensMap| m.unk_token),
        match config.unk_token {
            Some(t) => Some(t@),
            None => None,
        },
    )
}

fn preferred<'a>(from_map: &'a Option<SpecialToken>, configured: Option<&'a str>) -> (r: Option<&'a str>)
    ensures
        r matches Some(s) ==> preferred_token(
            *from_map,
            match configured { Some(c) => Some(c@), None => None },
        ) == Some(s@),
        r is None <==> preferred_token(
            *from_map,
            match configured { Some(c) => Some(c@), None => None },
        ) is None,
{
    match from_map {
        Some(token) => Some(token.as_str()),
        None => configured,
    }
}

fn option_str(s: &Option<String>) -> (r: Option<&str>)
    ensures
        match s {
            Some(t) => r matches Some(u) && u@ == t@,
            None => r is None,
        },
{
    match s {
        Some(t) => Some(t.as_str()),
        None => None,
    }
}

/// Whether `e` reports that the special token `name` (`token`) is missing from
/// the vocabulary.
pub open spec fn is_missing_token(e: Error, name: Seq<char>, token: Seq<char>) -> bool {
    e matches Error::MissingSpecialTokenId { name: n, token: t } && n@ == name && t@ == token
}

/// Hugging Face tokenizer wrapper owning the runtime, its configuration and
/// the special-token metadata.
#[derive(Debug, Clone)]
pub struct Tokenizer {
    inner: HfTokenizer,
    config: TokenizerConfig,
    special_tokens_map: Option<SpecialTokensMap>,
    special_token_ids: SpecialTokenIds,
}

/// The ID of `token` in a token-to-ID table, widened to a model token ID.
pub open spec fn lookup_id(vocabulary: Map<Seq<char>, u32>, token: Seq<char>) -> Option<i64> {
    if vocabulary.contains_key(token) {
        Some(vocabulary[token] as i64)
    } else {
        None
    }
}

/// The ID of an optional token: none when the token is absent.
pub open spec fn lookup_optional_id(vocabulary: Map<Seq<char>, u32>, token: Option<Seq<char>>) -> Option<i64> {
    match token {
        Some(t) => lookup_id(vocabulary, t),
        None => None,
    }
}

/// Whether every special token the configuration resolves to is in the
/// vocabulary: the end-of-sequence and padding tokens always, the others when
/// configured.
pub open spec fn special_tokens_known(
    vocabulary: Map<Seq<char>, u32>,
    config: TokenizerConfig,
    map: Option<SpecialTokensMap>,
) -> bool {
    &&& chosen_bos(config, map) matches Some(t) ==> vocabulary.contains_key(t)
    &&& vocabulary.contains_key(chosen_eos(config, map))
    &&& vocabulary.contains_key(chosen_pad(config, map))
    &&& chosen_unk(config, map) matches Some(t) ==> vocabulary.contains_key(t)
}

/// The special token IDs a configuration resolves to in a vocabulary.
pub open spec fn resolved_special_ids(
    vocabulary: Map<Seq<char>, u32>,
    config: TokenizerConfig,
    map: Option<SpecialTokensMap>,
) -> SpecialTokenIds {
    SpecialTokenIds {
        bos_token_id: lookup_optional_id(vocabulary, chosen_bos(config, map)),
        eos_token_id: vocabulary[chosen_eos(config, map)] as i64,
        pad_token_id: vocabulary[chosen_pad(config, map)] as i64,
        unk_token_id: lookup_optional_id(vocabulary, chosen_unk(config, map)),
    }
}

/// Whether `e` reports the first special token, in the order beginning of
/// sequence, end of sequence, padding, unknown, that is not in the vocabulary.
pub open spec fn reports_first_unknown_special(
    e: Error,
    vocabulary: Map<Seq<char>, u32>,
    config: TokenizerConfig,
    map: Option<SpecialTokensMap>,
) -> bool {
    if chosen_bos(config, map) is Some && !vocabulary.contains_key(chosen_bos(config, map)->0) {
        is_missing_token(e, "bos_token"@, chosen_bos(config, map)->0)
    } else if !vocabulary.contains_key(chosen_eos(config, map)) {
        is_missing_token(e, "eos_token"@, chosen_eos(config, map))
    } else if !vocabulary.contains_key(chosen_pad(config, map)) {
        is_missing_token(e, "pad_token"@, chosen_pad(config, map))
    } else {
        is_missing_token(e, "unk_token"@, chosen_unk(config, map)->0)
    }
}

/// Looks up a special token that must exist in the vocabulary.
fn required_token_id(inner: &HfTokenizer, name: &str, token: &str) -> (r: Result<i64, Error>)
    ensures
        r is Ok <==> vocabulary_ids(*inner).contains_key(token@),
        r matches Ok(id) ==> Some(id) == lookup_id(vocabulary_ids(*inner), token@) && 0 <= id <= u32::MAX,
        r matches Err(e) ==> is_missing_token(e, name@, token@),
{
    match vocabulary_id(inner, token) {
        Some(id) => Ok(id as i64),
        None => Err(Error::MissingSpecialTokenId { name: name.to_owned(), token: token.to_owned() }),
    }
}

/// Looks up a special token that the configuration may leave out.
fn optional_token_id(inner: &HfTokenizer, name: &str, token: Option<&str>) -> (r: Result<Option<i64>, Error>)
    ensures
        r is Ok <==> (token matches Some(t) ==> vocabulary_ids(*inner).contains_key(t@)),
        r matches Ok(v) ==> v == lookup_optional_id(
            vocabulary_ids(*inner),
            match token { Some(t) => Some(t@), None => None },
        ),
        r matches Err(e) ==> token matches Some(t) && is_missing_token(e, name@, t@),
{
    match token {
        Some(t) => match required_token_id(inner, name, t) {
            Ok(id) => Ok(Some(id)),
            Err(e) => Err(e),
        },
        None => Ok(None),
    }
}

impl Tokenizer {
    /// Builds a tokenizer from its loaded parts and resolves the special token
    /// IDs. A token listed in `special_tokens_map.json` wins over the one in
    /// `tokenizer_config.json`; the end-of-sequence and padding tokens must be
    /// in the vocabulary, the others only when they are configured.
    pub fn from_parts(
        inner: HfTokenizer,
        config: TokenizerConfig,
        special_tokens_map: Option<SpecialTokensMap>,
    ) -> (r: Result<Tokenizer, Error>)
        ensures
            r is Ok <==> special_tokens_known(vocabulary_ids(inner), config, special_tokens_map),
            r matches Ok(t) ==> {
                &&& t.spec_config() == config
                &&& t.spec_special_tokens_map() == special_tokens_map
                &&& t.spec_vocabulary() == vocabulary_ids(inner)
                &&& t.spec_id_tokens() == vocabulary_tokens(inner)
                &&& t.spec_special_token_ids() == resolved_special_ids(vocabulary_ids(inner), config,
                    special_tokens_map)
            },
            r matches Err(e) ==> reports_first_unknown_special(e, vocabulary_ids(inner), config, special_tokens_map),
    {
        let ids = match Self::resolve_special_token_ids(&inner, &config, &special_tokens_map) {
            Ok(ids) => ids,
            Err(e) => return Err(e),
        };
        Ok(Tokenizer { inner, config, special_tokens_map, special_token_ids: ids })
    }

    fn resolve_special_token_ids(
        inner: &HfTokenizer,
        config: &TokenizerConfig,
        map: &Option<SpecialTokensMap>,
    ) -> (r: Result<SpecialTokenIds, Error>)
        ensures
            r is Ok <==> special_tokens_known(vocabulary_ids(*inner), *config, *map),
            r matches Ok(ids) ==> ids == resolved_special_ids(vocabulary_ids(*inner), *config, *map),
            r matches Err(e) ==> reports_first_unknown_special(e, vocabulary_ids(*inner), *config, *map),
    {
        let absent: Option<SpecialToken> = None;
        let (bos_entry, eos_entry, pad_entry, unk_entry) = match map {
            Some(m) => (&m.bos_token, &m.eos_token, &m.pad_token, &m.unk_token),
            None => (&absent, &absent, &absent, &absent),
        };
        let bos = preferred(bos_entry, option_str(&config.bos_token));
        assert(*bos_entry == map_entry(*map, |m: SpecialTokensMap| m.bos_token));
        assert(bos is None <==> chosen_bos(*config, *map) is None);
        let eos = match preferred(eos_entry, Some(config.eos_token.as_str())) {
            Some(t) => t,
            None => config.eos_token.as_str(),
        };
        let pad = match preferred(pad_entry, Some(config.pad_token.as_str())) {
            Some(t) => t,
            None => config.pad_token.as_str(),
        };
        let unk = preferred(unk_entry, option_str(&config.unk_token));
        assert(*unk_entry == map_entry(*map, |m: SpecialTokensMap| m.unk_token));
        let bos_token_id = match optional_token_id(inner, "bos_token", bos) {
            Ok(id) => id,
            Err(e) => return Err(e),
        };
        let eos_token_id = match required_token_id(inner, "eos_token", eos) {
            Ok(id) => id,
            Err(e) => return Err(e),
        };
        let pad_token_id = match required_token_id(inner, "pad_token", pad) {
            Ok(id) => id,
            Err(e) => return Err(e),
        };
        let unk_token_id = match optional_token_id(inner, "unk_token", unk) {
            Ok(id) => id,
            Err(e) => return Err(e),
        };
        Ok(SpecialTokenIds { bos_token_id, eos_token_id, pad_token_id, unk_token_id })
    }

    /// The token-to-ID table of the tokenizer runtime.
    pub closed spec fn spec_vocabulary(&self) -> Map<Seq<char>, u32> {
        vocabulary_ids(self.inner)
    }

    /// The ID-to-token table of the tokenizer runtime.
    pub closed spec fn spec_id_tokens(&self) -> Map<u32, Seq<char>> {
        vocabulary_tokens(self.inner)
    }

    /// What the tokenizer runtime's `decode` gives for valid model token IDs.
    pub closed spec fn decoding(&self, ids: Seq<i64>, skip_special_tokens: bool) -> Result<Seq<char>, Seq<char>> {
        decoded(self.inner, tokenizer_ids(ids), skip_special_tokens)
    }

    /// The configuration the tokenizer was built with.
    pub closed spec fn spec_config(&self) -> TokenizerConfig {
        self.config
    }

    /// Returns the tokenizer configuration.
    pub fn config(&self) -> (c: &TokenizerConfig)
        ensures
            *c == self.spec_config(),
    {
        &self.config
    }

    /// The special-token map the tokenizer was built with.
    pub closed spec fn spec_special_tokens_map(&self) -> Option<SpecialTokensMap> {
        self.special_tokens_map
    }

    /// Returns the optional special-token map.
    pub fn special_tokens_map(&self) -> (m: Option<&SpecialTokensMap>)
        ensures
            match self.spec_special_tokens_map() {
                Some(sm) => m == Some(&sm),
                None => m is None,
            },
    {
        self.special_tokens_map.as_ref()
    }

    /// The resolved special token IDs.
    pub closed spec fn spec_special_token_ids(&self) -> SpecialTokenIds {
        self.special_token_ids
    }

    /// Returns the resolved special token IDs.
    pub fn special_token_ids(&self) -> (ids: SpecialTokenIds)
        ensures
            ids == self.spec_special_token_ids(),
    {
        self.special_token_ids
    }

    /// Whether `raw` is an encoding that the tokenizer runtime's `encode`, with
    /// special tokens added, can give for `text`: a possible result of that call.
    pub closed spec fn runtime_encodes(&self, text: &str, raw: Seq<u32>) -> bool {
        exists|v: Vec<u32>| v@ == raw && call_ensures(encode_text, (&self.inner, text), Ok::<Vec<u32>, String>(v))
    }

    /// Whether `message` is an error that the tokenizer runtime's `encode` can
    /// report for `text`.
    pub closed spec fn runtime_encoding_fails(&self, text: &str, message: Seq<char>) -> bool {
        exists|m: String| m@ == message && call_ensures(encode_text, (&self.inner, text), Err::<Vec<u32>, String>(m))
    }

    /// Whether `ids` are the IDs of an encoding the runtime can give for `text`,
    /// widened one for one and in order.
    pub open spec fn encodes(&self, text: &str, ids: Seq<i64>) -> bool {
        exists|raw: Seq<u32>| self.runtime_encodes(text, raw) && ids.len() == raw.len() && forall|i: int|
            0 <= i < raw.len() ==> ids[i] == #[trigger] raw[i] as i64
    }

    /// Encodes text, special tokens included, into token IDs.
    pub fn encode(&self, text: &str) -> (r: Result<Vec<i64>, Error>)
        ensures
            r matches Ok(ids) ==> forall|i: int| 0 <= i < ids@.len() ==> 0 <= #[trigger] ids@[i] <= u32::MAX,
            r matches Ok(ids) ==> self.encodes(text, ids@),
            r matches Err(e) ==> e is TokenizerEncoding,
            r matches Err(e) ==> e matches Error::TokenizerEncoding { reason } && self.runtime_encoding_fails(text,
                reason@),
    {
        let outcome = encode_text(&self.inner, text);
        assert(call_ensures(encode_text, (&self.inner, text), outcome));
        let raw = match outcome {
            Ok(raw) => raw,
            Err(reason) => {
                assert(self.runtime_encoding_fails(text, reason@));
                return Err(Error::TokenizerEncoding { reason });
            },
        };
        assert(self.runtime_encodes(text, raw@));
        let ids = widen_ids(raw.as_slice());
        assert(forall|i: int| 0 <= i < raw@.len() ==> ids@[i] == #[trigger] raw@[i] as i64);
        Ok(ids)
    }

    /// Decodes token IDs.
    pub fn decode(&self, ids: &[i64]) -> (r: Result<String, Error>)
        ensures
            match first_invalid_id(ids@) {
                Some(k) => r == Err::<String, Error>(Error::InvalidTokenId { token_id: ids@[k] }),
                None => reports_decoding(self.decoding(ids@, false), r),
            },
    {
        self.decode_inner(ids, false)
    }

    /// Decodes token IDs, leaving out special tokens.
    pub fn decode_skip_special_tokens(&self, ids: &[i64]) -> (r: Result<String, Error>)
        ensures
            match first_invalid_id(ids@) {
                Some(k) => r == Err::<String, Error>(Error::InvalidTokenId { token_id: ids@[k] }),
                None => reports_decoding(self.decoding(ids@, true), r),
            },
    {
        self.decode_inner(ids, true)
    }

    /// Decodes a batch of token ID sequences.
    pub fn decode_batch(&self, batch: &[Vec<i64>]) -> (r: Result<Vec<String>, Error>)
        ensures
            match first_invalid_in_batch(batch@) {
                Some((b, k)) => r == Err::<Vec<String>, Error>(Error::InvalidTokenId { token_id: batch@[b]@[k] }),
                None => reports_batch_decoding(*self, batch@, false, r),
            },
    {
        self.decode_batch_inner(batch, false)
    }

    /// Decodes a batch of token ID sequences, leaving out special tokens.
    pub fn decode_batch_skip_special_tokens(&self, batch: &[Vec<i64>]) -> (r: Result<Vec<String>, Error>)
        ensures
            match first_invalid_in_batch(batch@) {
                Some((b, k)) => r == Err::<Vec<String>, Error>(Error::InvalidTokenId { token_id: batch@[b]@[k] }),
                None => reports_batch_decoding(*self, batch@, true, r),
            },
    {
        self.decode_batch_inner(batch, true)
    }

    /// Returns the vocabulary ID of `token`.
    pub fn token_to_id(&self, token: &str) -> (r: Result<i64, Error>)
        ensures
            r is Ok <==> self.spec_vocabulary().contains_key(token@),
            r matches Ok(id) ==> Some(id) == lookup_id(self.spec_vocabulary(), token@) && 0 <= id <= u32::MAX,
            r matches Err(e) ==> is_missing_token(e, "token"@, token@),
    {
        required_token_id(&self.inner, "token", token)
    }

    /// Returns the token text of a vocabulary ID; IDs outside the `u32` range
    /// have none.
    pub fn id_to_token(&self, id: i64) -> (r: Option<String>)
        ensures
            match r {
                Some(token) => 0 <= id <= u32::MAX && self.spec_id_tokens().contains_key(id as u32)
                    && token@ == self.spec_id_tokens()[id as u32],
                None => !(0 <= id <= u32::MAX) || !self.spec_id_tokens().contains_key(id as u32),
            },
    {
        if id < 0 || id > u32::MAX as i64 {
            return None;
        }
        vocabulary_token(&self.inner, id as u32)
    }

    fn decode_inner(&self, ids: &[i64], skip_special_tokens: bool) -> (r: Result<String, Error>)
        ensures
            match first_invalid_id(ids@) {
                Some(k) => r == Err::<String, Error>(Error::InvalidTokenId { token_id: ids@[k] }),
                None => reports_decoding(self.decoding(ids@, skip_special_tokens), r),
            },
    {
        let narrow = match Self::token_ids_to_u32(ids) {
            Ok(v) => v,
            Err(e) => return Err(e),
        };
        match decode_ids(&self.inner, narrow.as_slice(), skip_special_tokens) {
            Ok(text) => Ok(text),
            Err(reason) => Err(Error::TokenizerDecoding { reason }),
        }
    }

    fn decode_batch_inner(&self, batch: &[Vec<i64>], skip_special_tokens: bool) -> (r: Result<Vec<String>, Error>)
        ensures
            match first_invalid_in_batch(batch@) {
                Some((b, k)) => r == Err::<Vec<String>, Error>(Error::InvalidTokenId { token_id: batch@[b]@[k] }),
                None => reports_batch_decoding(*self, batch@, skip_special_tokens, r),
            },
    {
        let mut narrow: Vec<Vec<u32>> = Vec::new();
        let mut b: usize = 0;
        while b < batch.len()
            invariant
                b <= batch@.len(),
                narrow@.len() == b,
                forall|c: int| 0 <= c < b ==> (#[trigger] narrow@[c])@ == tokenizer_ids(batch@[c]@),
                first_invalid_in_batch(batch@.take(b as int)) is None,
            decreases batch@.len() - b,
        {
            proof {
                lemma_batch_take_step(batch@, b as int);
            }
            match Self::token_ids_to_u32(batch[b].as_slice()) {
                Ok(v) => narrow.push(v),
                Err(e) => {
                    proof {
                        lemma_batch_first_invalid(batch@, b as int);
                    }
                    return Err(e);
                },
            }
            b += 1;
        }
        proof {
            assert(batch@.take(batch@.len() as int) =~= batch@);
        }
        let r = decode_id_batch(&self.inner, narrow.as_slice(), skip_special_tokens);
        proof {
            assert forall|i: int| 0 <= i < batch@.len() implies decoded(self.inner, narrow@[i]@, skip_special_tokens)
                == #[trigger] self.decoding(batch@[i]@, skip_special_tokens) by {
                assert(narrow@[i]@ == tokenizer_ids(batch@[i]@));
            }
        }
        match r {
            Ok(texts) => Ok(texts),
            Err(reason) => {
                proof {
                    let i = choose|i: int| 0 <= i < narrow@.len() && #[trigger] decoded(self.inner, narrow@[i]@,
                        skip_special_tokens) == Err::<Seq<char>, Seq<char>>(reason@);
                    assert(self.decoding(batch@[i]@, skip_special_tokens) == Err::<Seq<char>, Seq<char>>(reason@));
                }
                Err(Error::TokenizerDecoding { reason })
            },
        }
    }

    /// Narrows model token IDs to the tokenizer's `u32` IDs; the first ID
    /// outside that range is reported.
    fn token_ids_to_u32(ids: &[i64]) -> (r: Result<Vec<u32>, Error>)
        ensures
            match first_invalid_id(ids@) {
                Some(k) => r == Err::<Vec<u32>, Error>(Error::InvalidTokenId { token_id: ids@[k] }),
                None => r matches Ok(v) && v@.len() == ids@.len() && v@ == tokenizer_ids(ids@) && forall|i: int|
                    0 <= i < ids@.len() ==> #[trigger] v@[i] as i64 == ids@[i],
            },
    {
        let mut out: Vec<u32> = Vec::new();
        let mut i: usize = 0;
        while i < ids.len()
            invariant
                i <= ids@.len(),
                out@.len() == i,
                forall|j: int| 0 <= j < i ==> 0 <= #[trigger] ids@[j] <= u32::MAX,
                forall|j: int| 0 <= j < i ==> #[trigger] out@[j] as i64 == ids@[j],
            decreases ids@.len() - i,
        {
            let id = ids[i];
            if id < 0 || id > u32::MAX as i64 {
                proof {
                    lemma_first_invalid_is(ids@, i as int);
                }
                return Err(Error::InvalidTokenId { token_id: id });
            }
            out.push(id as u32);
            i += 1;
        }
        proof {
            lemma_all_valid(ids@);
            assert forall|j: int| 0 <= j < ids@.len() implies out@[j] == tokenizer_ids(ids@)[j] by {
                assert(out@[j] as i64 == ids@[j]);
            }
            assert(out@ =~= tokenizer_ids(ids@));
        }
        Ok(out)
    }
}

/// Whether a model token ID can be handed to the tokenizer.
pub open spec fn valid_token_id(id: i64) -> bool {
    0 <= id <= u32::MAX
}

/// Position of the first ID outside the tokenizer's range, if any.
pub open spec fn first_invalid_id(ids: Seq<i64>) -> Option<int> {
    if exists|k: int| 0 <= k < ids.len() && !valid_token_id(#[trigger] ids[k]) {
        Some(choose|k: int| 0 <= k < ids.len() && !valid_token_id(ids[k]) && forall|j: int|
            0 <= j < k ==> valid_token_id(#[trigger] ids[j]))
    } else {
        None
    }
}

/// Sequence and position of the first invalid ID in a batch, if any.
pub open spec fn first_invalid_in_batch(batch: Seq<Vec<i64>>) -> Option<(int, int)> {
    if exists|b: int| 0 <= b < batch.len() && (#[trigger] first_invalid_id(batch[b]@)) is Some {
        let b = choose|b: int| 0 <= b < batch.len() && first_invalid_id(batch[b]@) is Some && forall|c: int|
            0 <= c < b ==> (#[trigger] first_invalid_id(batch[c]@)) is None;
        Some((b, first_invalid_id(batch[b]@)->0))
    } else {
        None
    }
}

proof fn lemma_first_invalid_is(ids: Seq<i64>, i: int)
    requires
        0 <= i < ids.len(),
        !valid_token_id(ids[i]),
        forall|j: int| 0 <= j < i ==> valid_token_id(#[trigger] ids[j]),
    ensures
        first_invalid_id(ids) == Some(i),
{
    let k = choose|k: int| 0 <= k < ids.len() && !valid_token_id(ids[k]) && forall|j: int|
        0 <= j < k ==> valid_token_id(#[trigger] ids[j]);
    assert(0 <= i < ids.len() && !valid_token_id(ids[i]) && forall|j: int| 0 <= j < i ==> valid_token_id(#[trigger] ids[j]));
    if k < i {
        assert(valid_token_id(ids[k]));
    }
    if i < k {
        assert(valid_token_id(ids[i]));
    }
}

proof fn lemma_all_valid(ids: Seq<i64>)
    requires
        forall|j: int| 0 <= j < ids.len() ==> valid_token_id(#[trigger] ids[j]),
    ensures
        first_invalid_id(ids) is None,
{
}

proof fn lemma_batch_take_step(batch: Seq<Vec<i64>>, b: int)
    requires
        0 <= b < batch.len(),
        first_invalid_in_batch(batch.take(b)) is None,
    ensures
        forall|c: int| 0 <= c < b ==> (#[trigger] first_invalid_id(batch[c]@)) is None,
        first_invalid_id(batch[b]@) is None ==> first_invalid_in_batch(batch.take(b + 1)) is None,
{
    assert forall|c: int| 0 <= c < b implies (#[trigger] first_invalid_id(batch[c]@)) is None by {
        assert(batch.take(b)[c] == batch[c]);
    }
    if first_invalid_id(batch[b]@) is None {
        assert forall|c: int| 0 <= c < b + 1 implies (#[trigger] first_invalid_id(batch.take(b + 1)[c]@)) is None by {
            assert(batch.take(b + 1)[c] == batch[c]);
        }
    }
}

proof fn lemma_batch_first_invalid(batch: Seq<Vec<i64>>, b: int)
    requires
        0 <= b < batch.len(),
        first_invalid_id(batch[b]@) is Some,
        forall|c: int| 0 <= c < b ==> (#[trigger] first_invalid_id(batch[c]@)) is None,
    ensures
        first_invalid_in_batch(batch) == Some((b, first_invalid_id(batch[b]@)->0)),
{
    let w = choose|w: int| 0 <= w < batch.len() && first_invalid_id(batch[w]@) is Some && forall|c: int|
        0 <= c < w ==> (#[trigger] first_invalid_id(batch[c]@)) is None;
    assert(0 <= b < batch.len() && first_invalid_id(batch[b]@) is Some && forall|c: int|
        0 <= c < b ==> (#[trigger] first_invalid_id(batch[c]@)) is None);
    if w < b {
        assert(first_invalid_id(batch[w]@) is None);
    }
    if b < w {
        assert(first_invalid_id(batch[b]@) is None);
    }
}

/// Widens the tokenizer's `u32` IDs of an encoding to model token IDs, one for
/// one and in order: what [`Tokenizer::encode`] returns for the encoding the
/// tokenizer runtime produced.
pub fn widen_ids(raw: &[u32]) -> (ids: Vec<i64>)
    ensures
        ids@.len() == raw@.len(),
        forall|i: int| 0 <= i < raw@.len() ==> #[trigger] ids@[i] == raw@[i] as i64,
{
    let mut ids: Vec<i64> = Vec::new();
    let mut i: usize = 0;
    while i < raw.len()
        invariant
            i <= raw@.len(),
            ids@.len() == i,
            forall|j: int| 0 <= j < i ==> #[trigger] ids@[j] == raw@[j] as i64,
        decreases raw@.len() - i,
    {
        ids.push(raw[i] as i64);
        i += 1;
    }
    ids
}

} // verus!
