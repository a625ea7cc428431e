//! The raw message layer.
//!
//! One CRLF-stripped frame decomposes into `(tags?, source?, command,
//! args[], data?)`, held as index ranges over the one backing string:
//!
//! 1. an optional `@tags` fragment, through the first space;
//! 2. an optional `:source` fragment, through the next space;
//! 3. the command token;
//! 4. space-separated argument tokens;
//! 5. an optional trailing `data` segment after a leading `:`, keeping its
//!    internal spaces.
//!
//! The decomposition is specified by [`spec_parse`]; [`IrcMessage::parse`]
//! is proved against it, and the typed accessors and the `expect_*` helpers
//! speak of its fields.

use vstd::prelude::*;
use vstd::string::StrSliceExecFns;
use crate::strindex::StrIndex;
use crate::tags::{TagIndices, tag_pairs, lookup_pairs};
use crate::decoder::{decode_all, wire_frames, kept_frames, MAX_FRAME};
use crate::util::{find_from, find_char, str_eq};

verus! {

/// Why a raw message could not be projected into a typed one.
#[derive(Clone, Debug, PartialEq, Eq)]
pub enum InvalidMessage {
    /// The command was not the expected one.
    UnexpectedCommand,
    /// The argument at this position is missing.
    ExpectedArg(usize),
    /// The trailing data segment is missing.
    ExpectedData,
    /// The tag with this name is missing.
    ExpectedTag(String),
    /// The tag with this name could not be parsed.
    CannotParseTag(String),
}

/// The decomposition of one frame: the spec-level mirror of
/// [`IrcMessage`]'s index ranges.
pub struct SpecMessage {
    /// The tags fragment, `@` included; empty when there is none.
    pub tags: Seq<char>,
    /// The source, its leading `:` stripped.
    pub source: Option<Seq<char>>,
    /// The command token.
    pub command: Seq<char>,
    /// The argument tokens.
    pub args: Seq<Seq<char>>,
    /// The trailing data, its leading `:` stripped.
    pub data: Option<Seq<char>>,
}

/// The argument tokens and trailing data from position `i` on.
pub open spec fn spec_parse_args(s: Seq<char>, i: int) -> (Seq<Seq<char>>, Option<Seq<char>>)
    decreases s.len() - i,
{
    if i < 0 || i >= s.len() {
        (Seq::<Seq<char>>::empty(), None::<Seq<char>>)
    } else if s[i] == ':' {
        (Seq::<Seq<char>>::empty(), Some(s.skip(i + 1)))
    } else {
        let e = find_from(s, ' ', i);
        if e < i {
            // never: the first occurrence is at or after `i`
            (Seq::<Seq<char>>::empty(), None::<Seq<char>>)
        } else if e < s.len() {
            let rest = spec_parse_args(s, e + 1);
            (seq![s.subrange(i, e)] + rest.0, rest.1)
        } else {
            (seq![s.subrange(i, s.len() as int)], None::<Seq<char>>)
        }
    }
}

/// The decomposition of the frame `s`.
pub open spec fn spec_parse(s: Seq<char>) -> SpecMessage {
    let n = s.len() as int;
    let has_tags = n > 0 && s[0] == '@';
    let t_end = if has_tags {
        find_from(s, ' ', 0)
    } else {
        0
    };
    let p0 = if has_tags {
        if t_end < n {
            t_end + 1
        } else {
            n
        }
    } else {
        0
    };
    let has_source = p0 < n && s[p0] == ':';
    let u = if has_source {
        find_from(s, ' ', p0)
    } else {
        p0
    };
    let p1 = if has_source {
        if u < n {
            u + 1
        } else {
            n
        }
    } else {
        p0
    };
    let c_end = find_from(s, ' ', p1);
    let p2 = if c_end < n {
        c_end + 1
    } else {
        n
    };
    let ad = spec_parse_args(s, p2);
    SpecMessage {
        tags: s.take(t_end),
        source: if has_source {
            Some(s.subrange(p0 + 1, u))
        } else {
            None
        },
        command: s.subrange(p1, c_end),
        args: ad.0,
        data: ad.1,
    }
}

/// A raw message: one frame and the index ranges of its components.
#[derive(Clone, Debug, PartialEq)]
pub struct IrcMessage {
    raw: String,
    tags: StrIndex,
    source: Option<StrIndex>,
    command: StrIndex,
    args: Vec<StrIndex>,
    data: Option<StrIndex>,
}

impl IrcMessage {
    /// The backing string: the frame this message was parsed from.
    pub closed spec fn s_raw(self) -> Seq<char> {
        self.raw@
    }

    /// The tags fragment, `@` included; empty when there is none.
    pub open spec fn s_tags(self) -> Seq<char> {
        spec_parse(self.s_raw()).tags
    }

    /// The source, its leading `:` stripped.
    pub open spec fn s_source(self) -> Option<Seq<char>> {
        spec_parse(self.s_raw()).source
    }

    /// The command token.
    pub open spec fn s_command(self) -> Seq<char> {
        spec_parse(self.s_raw()).command
    }

    /// The argument tokens.
    pub open spec fn s_args(self) -> Seq<Seq<char>> {
        spec_parse(self.s_raw()).args
    }

    /// The trailing data, its leading `:` stripped.
    pub open spec fn s_data(self) -> Option<Seq<char>> {
        spec_parse(self.s_raw()).data
    }

    /// The stored ranges select exactly the components `spec_parse` names.
    pub closed spec fn wf(self) -> bool {
        let s = self.raw@;
        let m = spec_parse(s);
        &&& s.len() < usize::MAX
        &&& self.tags.in_bounds(s.len()) && self.tags.extract(s) == m.tags
        &&& match self.source {
            Some(ix) => ix.in_bounds(s.len()) && m.source == Some(ix.extract(s)),
            None => m.source is None,
        }
        &&& self.command.in_bounds(s.len()) && self.command.extract(s) == m.command
        &&& self.args@.len() == m.args.len()
        &&& forall|i: int|
            0 <= i < self.args@.len() ==> (#[trigger] self.args@[i]).in_bounds(s.len())
                && self.args@[i].extract(s) == m.args[i]
        &&& match self.data {
            Some(ix) => ix.in_bounds(s.len()) && m.data == Some(ix.extract(s)),
            None => m.data is None,
        }
    }

    /// Parse one frame (already stripped of its CRLF terminator).
    pub fn parse(input: &str) -> (r: IrcMessage)
        requires
            input@.len() < usize::MAX,
        ensures
            r.wf(),
            r.s_raw() == input@,
    {
        let s = input;
        let n = s.unicode_len();
        let ghost m = spec_parse(input@);

        // Optional tags fragment, through the first space.
        let has_tags = n > 0 && s.get_char(0) == '@';
        let t_end = if has_tags {
            find_char(s, ' ', 0)
        } else {
            0
        };
        let tags = StrIndex { start: 0, end: t_end };
        let p0 = if has_tags {
            if t_end < n {
                t_end + 1
            } else {
                n
            }
        } else {
            0
        };
        proof {
            assert(tags.extract(input@) =~= m.tags);
        }

        // Optional source, through the next space.
        let has_source = p0 < n && s.get_char(p0) == ':';
        let u = if has_source {
            find_char(s, ' ', p0)
        } else {
            p0
        };
        let source = if has_source {
            Some(StrIndex { start: p0 + 1, end: u })
        } else {
            None
        };
        let p1 = if has_source {
            if u < n {
                u + 1
            } else {
                n
            }
        } else {
            p0
        };

        // The command token.
        let c_end = find_char(s, ' ', p1);
        let command = StrIndex { start: p1, end: c_end };
        let p2 = if c_end < n {
            c_end + 1
        } else {
            n
        };

        // Argument tokens, then an optional trailing data segment.
        let mut args: Vec<StrIndex> = Vec::new();
        let mut data: Option<StrIndex> = None;
        let mut i = p2;
        proof {
            assert(args@.map_values(|ix: StrIndex| ix.extract(input@)) =~= Seq::<
                Seq<char>,
            >::empty());
        }
        while i < n && data.is_none()
            invariant
                p2 <= i <= n,
                n == input@.len(),
                n < usize::MAX,
                s@ == input@,
                forall|x: int|
                    0 <= x < args@.len() ==> (#[trigger] args@[x]).in_bounds(n as nat),
                match data {
                    None => {
                        &&& spec_parse_args(input@, p2 as int).0 == args@.map_values(
                            |ix: StrIndex| ix.extract(input@),
                        ) + spec_parse_args(input@, i as int).0
                        &&& spec_parse_args(input@, p2 as int).1 == spec_parse_args(
                            input@,
                            i as int,
                        ).1
                    },
                    Some(d) => {
                        &&& d.in_bounds(n as nat)
                        &&& spec_parse_args(input@, p2 as int).0 == args@.map_values(
                            |ix: StrIndex| ix.extract(input@),
                        )
                        &&& spec_parse_args(input@, p2 as int).1 == Some(d.extract(input@))
                    },
                },
            decreases n - i, (if data is None { 1int } else { 0int }),
        {
            let ghost args_before = args@.map_values(|ix: StrIndex| ix.extract(input@));
            if s.get_char(i) == ':' {
                data = Some(StrIndex { start: i + 1, end: n });
                proof {
                    assert(input@.skip(i + 1) =~= input@.subrange(i + 1, n as int));
                }
            } else {
                let e = find_char(s, ' ', i);
                args.push(StrIndex { start: i, end: e });
                proof {
                    assert(args@.map_values(|ix: StrIndex| ix.extract(input@)) =~= args_before
                        + seq![input@.subrange(i as int, e as int)]);
                    if e < n {
                        assert(spec_parse_args(input@, i as int).0 == seq![
                            input@.subrange(i as int, e as int),
                        ] + spec_parse_args(input@, e + 1).0);
                        assert(args_before + (seq![input@.subrange(i as int, e as int)]
                            + spec_parse_args(input@, e + 1).0) =~= (args_before + seq![
                            input@.subrange(i as int, e as int),
                        ]) + spec_parse_args(input@, e + 1).0);
                    } else {
                        assert(spec_parse_args(input@, i as int).0 == seq![
                            input@.subrange(i as int, n as int),
                        ]);
                        assert(args_before + seq![input@.subrange(i as int, n as int)] =~= (
                        args_before + seq![input@.subrange(i as int, n as int)]) + spec_parse_args(
                            input@,
                            n as int,
                        ).0);
                    }
                }
                i = e;
                if i < n {
                    i = i + 1;
                }
            }
        }
        let r = IrcMessage {
            raw: s.to_owned(),
            tags,
            source,
            command,
            args,
            data,
        };
        proof {
            assert(r.command.extract(input@) == m.command);
            if r.source is Some {
                assert(r.source->0.extract(input@) == m.source->0);
            }
        }
        r
    }

    /// The frame this message was parsed from.
    pub fn raw(&self) -> (r: &str)
        ensures
            r@ == self.s_raw(),
    {
        self.raw.as_str()
    }

    /// An owned copy, no longer tied to any frame buffer.
    pub fn into_owned(self) -> (r: IrcMessage)
        ensures
            r == self,
    {
        self
    }

    /// The command token.
    pub fn command(&self) -> (r: &str)
        requires
            self.wf(),
        ensures
            r@ == self.s_command(),
    {
        self.raw.as_str().substring_char(self.command.start, self.command.end)
    }

    /// The argument token at `nth`, if there is one.
    pub fn nth_arg(&self, nth: usize) -> (r: Option<&str>)
        requires
            self.wf(),
        ensures
            match r {
                Some(a) => nth < self.s_args().len() && a@ == self.s_args()[nth as int]
                    && a@.len() < usize::MAX,
                None => nth >= self.s_args().len(),
            },
    {
        if nth >= self.args.len() {
            return None;
        }
        let ix = self.args[nth];
        Some(self.raw.as_str().substring_char(ix.start, ix.end))
    }

    /// The trailing data, if there is any.
    pub fn data(&self) -> (r: Option<&str>)
        requires
            self.wf(),
        ensures
            match r {
                Some(d) => self.s_data() == Some(d@) && d@.len() < usize::MAX,
                None => self.s_data() is None,
            },
    {
        match &self.data {
            Some(ix) => Some(self.raw.as_str().substring_char(ix.start, ix.end)),
            None => None,
        }
    }

    /// The source, its leading `:` stripped, if there is one.
    pub fn source(&self) -> (r: Option<&str>)
        requires
            self.wf(),
        ensures
            match r {
                Some(src) => self.s_source() == Some(src@) && src@.len() < usize::MAX,
                None => self.s_source() is None,
            },
    {
        match &self.source {
            Some(ix) => Some(self.raw.as_str().substring_char(ix.start, ix.end)),
            None => None,
        }
    }

    /// The tags fragment, `@` included; empty when there is none.
    pub fn tags_fragment(&self) -> (r: &str)
        requires
            self.wf(),
        ensures
            r@ == self.s_tags(),
            r@.len() < usize::MAX,
    {
        self.raw.as_str().substring_char(self.tags.start, self.tags.end)
    }

    /// The first value of the tag named `key`, as an owned string.
    pub fn tag(&self, key: &str) -> (r: Option<String>)
        requires
            self.wf(),
        ensures
            match r {
                Some(v) => lookup_pairs(tag_pairs(self.s_tags()), key@) == Some(v@),
                None => lookup_pairs(tag_pairs(self.s_tags()), key@) is None,
            },
    {
        let fragment = self.raw.as_str().substring_char(self.tags.start, self.tags.end);
        let indices = TagIndices::build_indices(fragment);
        match indices.get(key, fragment) {
            Some(v) => Some(v.to_owned()),
            None => None,
        }
    }

    /// The parsed tag indices, over [`Self::tags_fragment`] as the backing
    /// string.
    pub fn tags(&self) -> (r: TagIndices)
        requires
            self.wf(),
        ensures
            r.wf(self.s_tags().len()),
            r.pairs(self.s_tags()) == tag_pairs(self.s_tags()),
    {
        let fragment = self.raw.as_str().substring_char(self.tags.start, self.tags.end);
        TagIndices::build_indices(fragment)
    }

    /// Check that the command is `cmd`.
    pub fn expect_command(&self, cmd: &str) -> (r: Result<(), InvalidMessage>)
        requires
            self.wf(),
        ensures
            r is Ok <==> self.s_command() == cmd@,
            r is Err ==> r == Err::<(), InvalidMessage>(InvalidMessage::UnexpectedCommand),
    {
        let c = self.raw.as_str().substring_char(self.command.start, self.command.end);
        if str_eq(c, cmd) {
            Ok(())
        } else {
            Err(InvalidMessage::UnexpectedCommand)
        }
    }

    /// The argument at `nth`, or `ExpectedArg(nth)` when it is missing.
    pub fn expect_arg(&self, nth: usize) -> (r: Result<&str, InvalidMessage>)
        requires
            self.wf(),
        ensures
            match r {
                Ok(a) => nth < self.s_args().len() && a@ == self.s_args()[nth as int]
                    && a@.len() < usize::MAX,
                Err(e) => nth >= self.s_args().len() && e == InvalidMessage::ExpectedArg(nth),
            },
    {
        match self.nth_arg(nth) {
            Some(a) => Ok(a),
            None => Err(InvalidMessage::ExpectedArg(nth)),
        }
    }

    /// The index range of the trailing data, or `ExpectedData` when it is
    /// missing.
    pub fn expect_data_index(&self) -> (r: Result<StrIndex, InvalidMessage>)
        requires
            self.wf(),
        ensures
            match r {
                Ok(ix) => ix.in_bounds(self.s_raw().len()) && self.s_data() == Some(
                    ix.extract(self.s_raw()),
                ),
                Err(e) => self.s_data() is None && e == InvalidMessage::ExpectedData,
            },
    {
        match &self.data {
            Some(ix) => Ok(*ix),
            None => Err(InvalidMessage::ExpectedData),
        }
    }

    /// The trailing data, or `ExpectedData` when it is missing.
    pub fn expect_data(&self) -> (r: Result<&str, InvalidMessage>)
        requires
            self.wf(),
        ensures
            match r {
                Ok(d) => self.s_data() == Some(d@) && d@.len() < usize::MAX,
                Err(e) => self.s_data() is None && e == InvalidMessage::ExpectedData,
            },
    {
        match self.data() {
            Some(d) => Ok(d),
            None => Err(InvalidMessage::ExpectedData),
        }
    }
}

/// Every frame the decoder keeps fits the frame ceiling.
proof fn lemma_kept_frames_bound(fs: Seq<Seq<char>>)
    ensures
        forall|i: int| 0 <= i < kept_frames(fs).len() ==> (#[trigger] kept_frames(fs)[i]).len()
            <= MAX_FRAME,
    decreases fs.len(),
{
    if fs.len() > 0 {
        lemma_kept_frames_bound(fs.skip(1));
        if fs[0].len() <= MAX_FRAME {
            assert forall|i: int| 0 <= i < kept_frames(fs).len() implies (#[trigger] kept_frames(
                fs,
            )[i]).len() <= MAX_FRAME by {
                if i > 0 {
                    assert(kept_frames(fs)[i] == kept_frames(fs.skip(1))[i - 1]);
                }
            }
        }
    }
}

/// Parse every complete frame of the received text, in order.
pub fn parse(input: &str) -> (r: Vec<IrcMessage>)
    requires
        input@.len() < usize::MAX,
    ensures
        r@.len() == kept_frames(wire_frames(input@)).len(),
        forall|i: int|
            0 <= i < r@.len() ==> (#[trigger] r@[i]).wf() && r@[i].s_raw() == kept_frames(
                wire_frames(input@),
            )[i],
{
    let frames = decode_all(input);
    proof {
        lemma_kept_frames_bound(wire_frames(input@));
    }
    let mut out: Vec<IrcMessage> = Vec::new();
    let mut i: usize = 0;
    while i < frames.len()
        invariant
            0 <= i <= frames@.len(),
            frames@.len() == kept_frames(wire_frames(input@)).len(),
            forall|x: int|
                0 <= x < frames@.len() ==> (#[trigger] frames@[x])@ == kept_frames(
                    wire_frames(input@),
                )[x],
            forall|x: int|
                0 <= x < frames@.len() ==> (#[trigger] frames@[x])@.len() <= MAX_FRAME,
            out@.len() == i,
            forall|x: int|
                0 <= x < i ==> (#[trigger] out@[x]).wf() && out@[x].s_raw() == kept_frames(
                    wire_frames(input@),
                )[x],
        decreases frames@.len() - i,
    {
        let msg = IrcMessage::parse(frames[i].as_str());
        out.push(msg);
        i = i + 1;
    }
    out
}

/// Parse the first complete frame of the received text, if there is one.
pub fn parse_one(input: &str) -> (r: Option<IrcMessage>)
    requires
        input@.len() < usize::MAX,
    ensures
        match r {
            Some(m) => {
                &&& kept_frames(wire_frames(input@)).len() > 0
                &&& m.wf()
                &&& m.s_raw() == kept_frames(wire_frames(input@))[0]
            },
            None => kept_frames(wire_frames(input@)).len() == 0,
        },
{
    let mut all = parse(input);
    if all.len() == 0 {
        None
    } else {
        let first = all.remove(0);
        Some(first)
    }
}

} // verus!
