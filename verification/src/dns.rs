//! DNS query packets: a fixed header and a single question.

use crate::buffer::{
    be16, buffered, freeze, frozen, new_buffer, put_bytes, put_slice, put_u16, put_u8,
};
use crate::cli::TestMode;
use crate::dispatch::{AdmissionStrategy, DispatchEngine, DispatchModel};
use crate::random::{is_alphanumeric, random_alphanumeric, random_id, thread_rng};
use bytes::Bytes;
use std::time::Duration;
use vstd::string::StringExecFns;
use vstd::prelude::*;
use vstd::utf8::encode_utf8;

verus! {

/// Flag word of a standard query with recursion desired.
pub const QUERY_FLAGS: u16 = 0x0100;

/// The twelve-byte header that opens every DNS message.
#[derive(Debug, Clone, Copy)]
pub struct DnsHeader {
    pub id: u16,
    pub flags: u16,
    pub questions: u16,
    pub answers: u16,
    pub authority: u16,
    pub additional: u16,
}

impl DnsHeader {
    /// The header of a query that carries exactly one question.
    pub open spec fn query(id: u16) -> DnsHeader {
        DnsHeader { id, flags: QUERY_FLAGS, questions: 1, answers: 0, authority: 0, additional: 0 }
    }

    /// Builds the header of a standard, recursion-desired query with one question.
    pub fn new(id: u16) -> (header: Self)
        ensures
            header == Self::query(id),
    {
        Self { id, flags: QUERY_FLAGS, questions: 1, answers: 0, authority: 0, additional: 0 }
    }

    /// The header on the wire: its six fields in declaration order, each as
    /// two bytes, most significant first.
    pub open spec fn wire(self) -> Seq<u8> {
        be16(self.id) + be16(self.flags) + be16(self.questions) + be16(self.answers) + be16(
            self.authority,
        ) + be16(self.additional)
    }

    /// Encodes the header into its twelve bytes.
    pub fn to_bytes(&self) -> (bytes: Bytes)
        ensures
            frozen(bytes) == self.wire(),
            frozen(bytes).len() == 12,
    {
        let mut buf = new_buffer();
        put_u16(&mut buf, self.id);
        put_u16(&mut buf, self.flags);
        put_u16(&mut buf, self.questions);
        put_u16(&mut buf, self.answers);
        put_u16(&mut buf, self.authority);
        put_u16(&mut buf, self.additional);
        freeze(buf)
    }
}

/// The byte that separates the labels of a domain name in its text form.
pub const LABEL_SEPARATOR: u8 = 0x2e;

/// Record type of an address record.
pub const TYPE_A: u16 = 1;

/// Record class of the internet.
pub const CLASS_IN: u16 = 1;

/// Number of bytes in `name` before its first separator; the whole length
/// where it has none.
pub open spec fn first_label_len(name: Seq<u8>) -> nat
    decreases name.len(),
{
    if name.len() == 0 || name[0] == LABEL_SEPARATOR {
        0
    } else {
        1 + first_label_len(name.drop_first())
    }
}

/// The length prefix written before a label of `len` bytes. Only the low
/// eight bits of the length are kept; nothing caps a label at 63 bytes.
pub open spec fn length_byte(len: nat) -> u8 {
    (len % 256) as u8
}

/// The labels of `name`, each as its length byte followed by its bytes.
///
/// The name is cut at every separator, so a name with `k` separators has
/// `k + 1` labels, some of which may be empty. The empty name is one
/// empty label.
pub open spec fn encode_labels(name: Seq<u8>) -> Seq<u8>
    decreases name.len(),
{
    let n = first_label_len(name);
    let label = seq![length_byte(n)] + name.take(n as int);
    if n < name.len() {
        label + encode_labels(name.skip(n as int + 1))
    } else {
        label
    }
}

/// A question on the wire: the encoded labels, the zero byte that ends the
/// name, then type and class as big-endian 16-bit numbers.
pub open spec fn question_wire(name: Seq<u8>, qtype: u16, qclass: u16) -> Seq<u8> {
    encode_labels(name) + seq![0u8] + be16(qtype) + be16(qclass)
}

/// The first label ends at `m` when no separator comes before `m` and
/// `m` is a separator or the end of the name.
pub proof fn lemma_first_label_len(name: Seq<u8>, m: int)
    requires
        0 <= m <= name.len(),
        forall|k: int| 0 <= k < m ==> name[k] != LABEL_SEPARATOR,
        m < name.len() ==> name[m] == LABEL_SEPARATOR,
    ensures
        first_label_len(name) == m,
    decreases m,
{
    if m > 0 {
        lemma_first_label_len(name.drop_first(), m - 1);
    }
}

/// Encoding turns every separator into a length byte and adds one more in
/// front, so the labels take one byte more than the name.
pub proof fn lemma_encode_labels_len(name: Seq<u8>)
    ensures
        encode_labels(name).len() == name.len() + 1,
    decreases name.len(),
{
    lemma_first_label_bound(name);
    let n = first_label_len(name);
    if n < name.len() {
        lemma_encode_labels_len(name.skip(n as int + 1));
    }
}

/// The first label never reaches past the end of the name.
pub proof fn lemma_first_label_bound(name: Seq<u8>)
    ensures
        first_label_len(name) <= name.len(),
    decreases name.len(),
{
    if name.len() > 0 && name[0] != LABEL_SEPARATOR {
        lemma_first_label_bound(name.drop_first());
    }
}

/// A name without separator is a single label: its length byte, then the
/// name itself.
pub proof fn lemma_encode_single_label(label: Seq<u8>)
    requires
        forall|k: int| 0 <= k < label.len() ==> label[k] != LABEL_SEPARATOR,
    ensures
        encode_labels(label) == seq![length_byte(label.len())] + label,
{
    lemma_first_label_len(label, label.len() as int);
    assert(label.take(label.len() as int) == label);
}

/// Labels are encoded one after the other: where `label` holds no
/// separator, the name `label`, separator, `rest` is the encoded `label`
/// followed by the encoding of `rest`.
pub proof fn lemma_encode_labels_split(label: Seq<u8>, rest: Seq<u8>)
    requires
        forall|k: int| 0 <= k < label.len() ==> label[k] != LABEL_SEPARATOR,
    ensures
        encode_labels(label + seq![LABEL_SEPARATOR] + rest) == seq![length_byte(label.len())]
            + label + encode_labels(rest),
{
    let name = label + seq![LABEL_SEPARATOR] + rest;
    lemma_first_label_len(name, label.len() as int);
    assert(name.take(label.len() as int) == label);
    assert(name.skip(label.len() as int + 1) == rest);
}

/// The single question of a query.
#[derive(Debug)]
pub struct DnsQuestion {
    pub name: String,
    pub qtype: u16,
    pub qclass: u16,
}

impl DnsQuestion {
    /// A question for the address records of `name` in the internet class.
    pub fn new(name: String) -> (question: Self)
        ensures
            question.name == name,
            question.qtype == TYPE_A,
            question.qclass == CLASS_IN,
    {
        Self { name, qtype: TYPE_A, qclass: CLASS_IN }
    }

    /// The name as the bytes of its UTF-8 text.
    pub open spec fn name_bytes(self) -> Seq<u8> {
        encode_utf8(self.name@)
    }

    /// The question on the wire.
    pub open spec fn wire(self) -> Seq<u8> {
        question_wire(self.name_bytes(), self.qtype, self.qclass)
    }

    /// Encodes the question: every label of the name behind its length
    /// byte, a zero byte, the type and the class.
    ///
    /// The result is six bytes longer than the name, and has to fit into
    /// one allocation.
    pub fn to_bytes(&self) -> (bytes: Bytes)
        requires
            self.name_bytes().len() + 6 <= isize::MAX,
        ensures
            frozen(bytes) == self.wire(),
            frozen(bytes).len() == self.name_bytes().len() + 6,
    {
        let name = self.name.as_str().as_bytes();
        let len: usize = name.len();
        let mut buf = new_buffer();
        let mut start: usize = 0;
        let mut i: usize = 0;
        proof {
            assert(name@.skip(0) == name@);
        }
        while i < len
            invariant
                len == name@.len(),
                len + 6 <= isize::MAX,
                start <= i <= len,
                forall|k: int| start <= k < i ==> name@[k] != LABEL_SEPARATOR,
                buffered(buf).len() == start,
                encode_labels(name@) == buffered(buf) + encode_labels(name@.skip(start as int)),
            decreases len - i,
        {
            if name[i] == LABEL_SEPARATOR {
                let label = &name[start..i];
                proof {
                    let rest = name@.skip(start as int);
                    lemma_first_label_len(rest, i - start);
                    assert(rest.take(i - start) == label@);
                    assert(rest.skip(i - start + 1) == name@.skip(i + 1));
                }
                put_u8(&mut buf, ((i - start) % 256) as u8);
                put_slice(&mut buf, label);
                start = i + 1;
            }
            i += 1;
        }
        let label = &name[start..len];
        proof {
            let rest = name@.skip(start as int);
            lemma_first_label_len(rest, len - start);
            assert(rest.take(len - start) == label@);
        }
        put_u8(&mut buf, ((len - start) % 256) as u8);
        put_slice(&mut buf, label);
        put_u8(&mut buf, 0);
        put_u16(&mut buf, self.qtype);
        put_u16(&mut buf, self.qclass);
        proof {
            lemma_encode_labels_len(name@);
        }
        freeze(buf)
    }

    /// Encodes the question where the result fits into one allocation,
    /// and says so where it does not.
    pub fn try_to_bytes(&self) -> (bytes: Option<Bytes>)
        ensures
            bytes is Some <==> self.name_bytes().len() + 6 <= isize::MAX,
            bytes matches Some(encoded) ==> frozen(encoded) == self.wire(),
    {
        let len: usize = self.name.as_str().as_bytes().len();
        if len <= (isize::MAX as usize) - 6 {
            Some(self.to_bytes())
        } else {
            None
        }
    }
}

/// Number of characters in the random label of a random-subdomain query.
pub const RANDOM_LABEL_LEN: usize = 10;

/// Trusted: `String::push` appends the one character to the end of the string.
pub assume_specification[ String::push ](s: &mut String, c: char)
    ensures
        final(s)@ == old(s)@.push(c),
;

/// Whether `label` could be the random label of a query: exactly
/// `RANDOM_LABEL_LEN` characters, each an ASCII letter or digit.
pub open spec fn is_random_label(label: Seq<char>) -> bool {
    &&& label.len() == RANDOM_LABEL_LEN
    &&& forall|i: int| 0 <= i < label.len() ==> is_alphanumeric_char(#[trigger] label[i])
}

/// Whether `c` is an ASCII digit or an ASCII letter of either case.
pub open spec fn is_alphanumeric_char(c: char) -> bool {
    ||| '0' <= c <= '9'
    ||| 'A' <= c <= 'Z'
    ||| 'a' <= c <= 'z'
}

/// The name a query asks for: the domain itself, or `label` and a dot in
/// front of the domain.
pub open spec fn effective_name(domain: Seq<char>, mode: TestMode, label: Seq<char>) -> Seq<char> {
    match mode {
        TestMode::SameDomain => domain,
        TestMode::RandomSubdomain => label + seq!['.'] + domain,
    }
}

/// Whether `name` is a random label, a dot, and then `domain`.
pub open spec fn is_random_subdomain(name: Seq<char>, domain: Seq<char>) -> bool {
    &&& name.len() == RANDOM_LABEL_LEN + 1 + domain.len()
    &&& is_random_label(name.take(RANDOM_LABEL_LEN as int))
    &&& name[RANDOM_LABEL_LEN as int] == '.'
    &&& name.skip(RANDOM_LABEL_LEN + 1) == domain
}

/// Draws a fresh label of `RANDOM_LABEL_LEN` random letters and digits.
pub fn random_label() -> (label: String)
    ensures
        is_random_label(label@),
{
    let mut rng = thread_rng();
    let mut label = String::new();
    let mut n: usize = 0;
    while n < RANDOM_LABEL_LEN
        invariant
            n <= RANDOM_LABEL_LEN,
            label@.len() == n,
            forall|i: int| 0 <= i < n ==> is_alphanumeric_char(#[trigger] label@[i]),
        decreases RANDOM_LABEL_LEN - n,
    {
        let b: u8 = random_alphanumeric(&mut rng);
        let c: char = b as char;
        label.push(c);
        n += 1;
    }
    label
}

/// One query: a header and its single question.
#[derive(Debug)]
pub struct DnsPacket {
    pub header: DnsHeader,
    pub question: DnsQuestion,
}

impl DnsPacket {
    /// The query with identifier `id` for `domain` under `mode`, where
    /// `label` is the random label that `RandomSubdomain` puts in front.
    /// `SameDomain` ignores `label`.
    pub fn assemble(domain: String, mode: &TestMode, id: u16, label: String) -> (packet: Self)
        ensures
            packet.header == DnsHeader::query(id),
            packet.question.name@ == effective_name(domain@, *mode, label@),
            packet.question.qtype == TYPE_A,
            packet.question.qclass == CLASS_IN,
    {
        let name = match mode {
            TestMode::SameDomain => domain,
            TestMode::RandomSubdomain => {
                let mut name = label;
                proof {
                    reveal_strlit(".");
                    assert("."@ == seq!['.']);
                }
                name.append(".");
                name.append(domain.as_str());
                name
            },
        };
        Self { header: DnsHeader::new(id), question: DnsQuestion::new(name) }
    }

    /// A fresh query for `domain`: a random identifier, and under
    /// `RandomSubdomain` a fresh random label in front of the domain.
    pub fn new(domain: String, mode: &TestMode) -> (packet: Self)
        ensures
            packet.header == DnsHeader::query(packet.header.id),
            packet.question.qtype == TYPE_A,
            packet.question.qclass == CLASS_IN,
            *mode == TestMode::SameDomain ==> packet.question.name@ == domain@,
            *mode == TestMode::RandomSubdomain ==> is_random_subdomain(
                packet.question.name@,
                domain@,
            ),
    {
        let mut rng = thread_rng();
        let id: u16 = random_id(&mut rng);
        match mode {
            TestMode::SameDomain => Self::assemble(domain, mode, id, String::new()),
            TestMode::RandomSubdomain => {
                let label = random_label();
                proof {
                    lemma_random_subdomain(domain@, label@);
                }
                Self::assemble(domain, mode, id, label)
            },
        }
    }

    /// The query on the wire: the header, then the question.
    pub open spec fn wire(self) -> Seq<u8> {
        self.header.wire() + self.question.wire()
    }

    /// Encodes the query: the twelve bytes of the header followed by the
    /// question. The result is eighteen bytes longer than the name, and
    /// has to fit into one allocation.
    pub fn to_bytes(&self) -> (bytes: Bytes)
        requires
            self.question.name_bytes().len() + 18 <= isize::MAX,
        ensures
            frozen(bytes) == self.wire(),
            frozen(bytes).len() == self.question.name_bytes().len() + 18,
    {
        let mut buf = new_buffer();
        put_bytes(&mut buf, self.header.to_bytes());
        put_bytes(&mut buf, self.question.to_bytes());
        freeze(buf)
    }

    /// Encodes the query where the result fits into one allocation, and
    /// says so where it does not.
    pub fn try_to_bytes(&self) -> (bytes: Option<Bytes>)
        ensures
            bytes is Some <==> self.question.name_bytes().len() + 18 <= isize::MAX,
            bytes matches Some(encoded) ==> frozen(encoded) == self.wire(),
    {
        let len: usize = self.question.name.as_str().as_bytes().len();
        if len <= (isize::MAX as usize) - 18 {
            Some(self.to_bytes())
        } else {
            None
        }
    }
}

/// A random label, a dot and the domain make a random subdomain of it.
pub proof fn lemma_random_subdomain(domain: Seq<char>, label: Seq<char>)
    requires
        is_random_label(label),
    ensures
        is_random_subdomain(effective_name(domain, TestMode::RandomSubdomain, label), domain),
{
    let name = label + seq!['.'] + domain;
    assert(name.take(RANDOM_LABEL_LEN as int) == label);
    assert(name.skip(RANDOM_LABEL_LEN + 1) == domain);
}

/// The UTF-8 text of two strings put together is the text of the first
/// followed by the text of the second.
pub proof fn lemma_encode_utf8_concat(first: Seq<char>, second: Seq<char>)
    ensures
        encode_utf8(first + second) == encode_utf8(first) + encode_utf8(second),
    decreases first.len(),
{
    if first.len() == 0 {
        assert(first + second == second);
    } else {
        assert((first + second).drop_first() == first.drop_first() + second);
        lemma_encode_utf8_concat(first.drop_first(), second);
    }
}

/// A random label takes ten bytes of text, all of them letters or digits.
pub proof fn lemma_random_label_bytes(label: Seq<char>)
    requires
        is_random_label(label),
    ensures
        encode_utf8(label).len() == RANDOM_LABEL_LEN,
        forall|i: int|
            0 <= i < RANDOM_LABEL_LEN ==> is_alphanumeric(#[trigger] encode_utf8(label)[i]),
{
    assert(vstd::utf8::is_ascii_chars(label)) by {
        assert forall|i: int| 0 <= i < label.len() implies '\0' <= #[trigger] label[i]
            <= '\u{7f}' by {
            assert(is_alphanumeric_char(label[i]));
        }
    }
    vstd::utf8::is_ascii_chars_encode_utf8(label);
    assert forall|i: int| 0 <= i < RANDOM_LABEL_LEN implies is_alphanumeric(
        #[trigger] encode_utf8(label)[i],
    ) by {
        assert(is_alphanumeric_char(label[i]));
        assert(label[i] as u8 == encode_utf8(label)[i]);
    }
}

/// On the wire, the question of a random-subdomain query is the random
/// label as a first label of ten bytes, followed by the question for the
/// domain itself.
pub proof fn lemma_random_subdomain_wire(
    domain: Seq<char>,
    label: Seq<char>,
    qtype: u16,
    qclass: u16,
)
    requires
        is_random_label(label),
    ensures
        question_wire(
            encode_utf8(effective_name(domain, TestMode::RandomSubdomain, label)),
            qtype,
            qclass,
        ) == seq![10u8] + encode_utf8(label) + question_wire(encode_utf8(domain), qtype, qclass),
{
    let dot = seq!['.'];
    lemma_encode_utf8_concat(label + dot, domain);
    lemma_encode_utf8_concat(label, dot);
    lemma_random_label_bytes(label);
    assert(vstd::utf8::is_ascii_chars(dot));
    vstd::utf8::is_ascii_chars_encode_utf8(dot);
    assert(encode_utf8(dot) == seq![LABEL_SEPARATOR]) by {
        assert(dot[0] as u8 == encode_utf8(dot)[0]);
        assert('.' as u8 == LABEL_SEPARATOR);
    }
    lemma_encode_labels_split(encode_utf8(label), encode_utf8(domain));
    assert(length_byte(encode_utf8(label).len()) == 10u8);
}

/// The address of the resolver under test, as plain numbers.
#[derive(Clone, Copy, Debug, PartialEq, Eq, Structural)]
pub enum TargetAddr {
    /// An IPv4 address, its four octets as one big-endian number, and a port.
    V4 { octets: u32, port: u16 },
    /// An IPv6 address, its eight segments as one big-endian number, with
    /// port, flow information and scope.
    V6 { segments: u128, port: u16, flowinfo: u32, scope_id: u32 },
}

/// Where the queries go and how long each may wait for its answer.
#[derive(Clone, Copy, Debug)]
pub struct DnsClient {
    pub target: TargetAddr,
    pub timeout: Duration,
}

impl DnsClient {
    /// A client for the resolver at `target` that gives every query
    /// `timeout` to be answered.
    pub fn new(target: TargetAddr, timeout: Duration) -> (client: Self)
        ensures
            client.target == target,
            client.timeout == timeout,
    {
        Self { target, timeout }
    }
}

/// Everything one benchmark needs to know: the resolver, the domain to
/// ask for, the admission strategy and the naming mode.
#[derive(Clone, Debug)]
pub struct DnsBenchmark {
    pub client: DnsClient,
    pub domain: String,
    pub strategy: AdmissionStrategy,
    pub mode: TestMode,
}

impl DnsBenchmark {
    /// A benchmark against `target`.
    pub fn new(
        target: TargetAddr,
        domain: String,
        strategy: AdmissionStrategy,
        timeout: Duration,
        mode: TestMode,
    ) -> (benchmark: Self)
        ensures
            benchmark.client.target == target,
            benchmark.client.timeout == timeout,
            benchmark.domain == domain,
            benchmark.strategy == strategy,
            benchmark.mode == mode,
    {
        let client = DnsClient::new(target, timeout);
        Self { client, domain, strategy, mode }
    }

    /// The engine for one run of `count` queries under the benchmark's
    /// admission strategy, before anything has happened.
    pub fn engine(&self, count: u64) -> (engine: DispatchEngine)
        ensures
            engine@ == DispatchModel::initial(count as nat, self.strategy),
    {
        DispatchEngine::new(count, self.strategy)
    }

    /// The next query of the run: a fresh packet for the benchmark's
    /// domain under its naming mode.
    pub fn next_query(&self) -> (packet: DnsPacket)
        ensures
            packet.header == DnsHeader::query(packet.header.id),
            packet.question.qtype == TYPE_A,
            packet.question.qclass == CLASS_IN,
            self.mode == TestMode::SameDomain ==> packet.question.name@ == self.domain@,
            self.mode == TestMode::RandomSubdomain ==> is_random_subdomain(
                packet.question.name@,
                self.domain@,
            ),
    {
        DnsPacket::new(self.domain.clone(), &self.mode)
    }
}

} // verus!
