//! Rendering of aggregated search outcomes into the chat reply.
//!
//! Each channel contributes one block to the reply, in the caller's fixed
//! channel order: an anchor line per found video on success, a single error
//! line on failure. A failing channel never suppresses the blocks of the
//! other channels.

use vstd::prelude::*;

use vstd::string::StringExecFns;

use crate::types::FetchError;
use crate::utils::dec_rep;
use crate::utils::dec_rep_signed;
use crate::utils::i64_to_string;
use crate::utils::u64_to_string;

verus! {

/// What one channel's search came to: its videos, or its failure.
pub type ChannelResult = Result<Vec<(u64, String)>, FetchError>;

/// The anchor line of one video: a link to the video by its id, titled with
/// the video's title, on a line of its own.
pub open spec fn spec_video_line(aid: u64, title: Seq<char>) -> Seq<char> {
    "<a href=\"https://www.bilibili.com/video/av"@ + dec_rep(aid as nat) + "\">"@ + title
        + "</a>\n"@
}

/// The text a failure is reported with: the remote status code for a
/// rejection, a fixed notice for a network failure.
pub open spec fn spec_error_text(e: FetchError) -> Seq<char> {
    match e {
        FetchError::RemoteRejected { code, message: _ } => dec_rep_signed(code as int),
        FetchError::Connectivity => "网络错误"@,
    }
}

/// The reply line of one failed channel.
pub open spec fn spec_error_line(e: FetchError) -> Seq<char> {
    "呜呜呜出错了 "@ + spec_error_text(e) + "\n"@
}

/// The anchor lines of one channel's videos, in payload order.
pub open spec fn spec_lines(vs: Seq<(u64, String)>) -> Seq<char>
    decreases vs.len(),
{
    if vs.len() == 0 {
        Seq::empty()
    } else {
        spec_video_line(vs[0].0, vs[0].1@) + spec_lines(vs.skip(1))
    }
}

/// The block one channel contributes to the reply.
pub open spec fn spec_block(r: ChannelResult) -> Seq<char> {
    match r {
        Ok(videos) => spec_lines(videos@),
        Err(e) => spec_error_line(e),
    }
}

/// The reply body: every channel's block, in the given channel order.
pub open spec fn spec_render(rs: Seq<ChannelResult>) -> Seq<char>
    decreases rs.len(),
{
    if rs.len() == 0 {
        Seq::empty()
    } else {
        spec_block(rs[0]) + spec_render(rs.skip(1))
    }
}

impl FetchError {
    /// The text this failure is reported with.
    pub fn describe(&self) -> (r: String)
        ensures
            r@ == spec_error_text(*self),
    {
        match self {
            FetchError::RemoteRejected { code, message: _ } => i64_to_string(*code),
            FetchError::Connectivity => "网络错误".to_owned(),
        }
    }
}

/// Renders the anchor line of one video.
pub fn video_line(aid: u64, title: &String) -> (r: String)
    ensures
        r@ == spec_video_line(aid, title@),
{
    let mut r = String::from_str("<a href=\"https://www.bilibili.com/video/av");
    let digits = u64_to_string(aid);
    r.append(digits.as_str());
    r.append("\">");
    r.append(title.as_str());
    r.append("</a>\n");
    r
}

/// Renders the reply line of one failed channel.
pub fn error_line(e: &FetchError) -> (r: String)
    ensures
        r@ == spec_error_line(*e),
{
    let mut r = String::from_str("呜呜呜出错了 ");
    let text = e.describe();
    r.append(text.as_str());
    r.append("\n");
    r
}

proof fn lemma_lines_push(vs: Seq<(u64, String)>, x: (u64, String))
    ensures
        spec_lines(vs.push(x)) == spec_lines(vs) + spec_video_line(x.0, x.1@),
    decreases vs.len(),
{
    if vs.len() == 0 {
        reveal_with_fuel(spec_lines, 2);
        assert(vs.push(x).skip(1) =~= Seq::<(u64, String)>::empty());
        assert(vs.push(x)[0] == x);
        assert(spec_lines(vs.push(x)) == spec_video_line(x.0, x.1@) + spec_lines(
            vs.push(x).skip(1),
        ));
        assert(spec_lines(vs.push(x)) =~= spec_lines(vs) + spec_video_line(x.0, x.1@));
    } else {
        lemma_lines_push(vs.skip(1), x);
        assert(vs.push(x)[0] == vs[0]);
        assert(vs.push(x).skip(1) =~= vs.skip(1).push(x));
        assert(spec_lines(vs.push(x)) == spec_video_line(vs[0].0, vs[0].1@) + (spec_lines(
            vs.skip(1),
        ) + spec_video_line(x.0, x.1@)));
        assert(spec_lines(vs.push(x)) =~= spec_lines(vs) + spec_video_line(x.0, x.1@));
    }
}

proof fn lemma_render_push(rs: Seq<ChannelResult>, x: ChannelResult)
    ensures
        spec_render(rs.push(x)) == spec_render(rs) + spec_block(x),
    decreases rs.len(),
{
    if rs.len() == 0 {
        reveal_with_fuel(spec_render, 2);
        assert(rs.push(x).skip(1) =~= Seq::<ChannelResult>::empty());
        assert(rs.push(x)[0] == x);
        assert(spec_render(rs.push(x)) == spec_block(x) + spec_render(rs.push(x).skip(1)));
        assert(spec_render(rs.push(x)) =~= spec_render(rs) + spec_block(x));
    } else {
        lemma_render_push(rs.skip(1), x);
        assert(rs.push(x)[0] == rs[0]);
        assert(rs.push(x).skip(1) =~= rs.skip(1).push(x));
        assert(spec_render(rs.push(x)) == spec_block(rs[0]) + (spec_render(rs.skip(1))
            + spec_block(x)));
        assert(spec_render(rs.push(x)) =~= spec_render(rs) + spec_block(x));
    }
}

/// Renders the aggregated reply body from the per-channel outcomes.
pub fn render_results(results: &Vec<ChannelResult>) -> (r: String)
    ensures
        r@ == spec_render(results@),
{
    let mut acc = String::new();
    let mut i: usize = 0;
    while i < results.len()
        invariant
            i <= results@.len(),
            acc@ == spec_render(results@.take(i as int)),
        decreases results@.len() - i,
    {
        let block = &results[i];
        match block {
            Ok(videos) => {
                let mut j: usize = 0;
                while j < videos.len()
                    invariant
                        j <= videos@.len(),
                        acc@ == spec_render(results@.take(i as int)) + spec_lines(
                            videos@.take(j as int),
                        ),
                    decreases videos@.len() - j,
                {
                    let video = &videos[j];
                    let line = video_line(video.0, &video.1);
                    acc.append(line.as_str());
                    proof {
                        lemma_lines_push(videos@.take(j as int), videos@[j as int]);
                        assert(videos@.take(j as int).push(videos@[j as int]) =~= videos@.take(
                            j + 1 as int,
                        ));
                    }
                    j += 1;
                }
                proof {
                    assert(videos@.take(videos@.len() as int) =~= videos@);
                }
            },
            Err(e) => {
                let line = error_line(e);
                acc.append(line.as_str());
            },
        }
        proof {
            lemma_render_push(results@.take(i as int), results@[i as int]);
            assert(results@.take(i as int).push(results@[i as int]) =~= results@.take(i + 1 as int));
        }
        i += 1;
    }
    proof {
        assert(results@.take(results@.len() as int) =~= results@);
    }
    acc
}

/// Law: channel outcomes are isolated. In the aggregated reply every channel
/// contributes exactly its own block — the lines of its videos, or its error
/// line — between the blocks of the channels before and after it, whatever
/// the other channels came to; in particular a rejected channel's error
/// record stands beside, not instead of, a successful channel's entries.
pub proof fn lemma_channel_isolation(rs: Seq<ChannelResult>, i: int)
    requires
        0 <= i < rs.len(),
    ensures
        spec_render(rs) == spec_render(rs.take(i)) + spec_block(rs[i]) + spec_render(
            rs.skip(i + 1),
        ),
    decreases i,
{
    if i == 0 {
        assert(rs.take(0) =~= Seq::<ChannelResult>::empty());
        assert(spec_render(rs) =~= spec_render(rs.take(0)) + spec_block(rs[0]) + spec_render(
            rs.skip(1),
        ));
    } else {
        let tail = rs.skip(1);
        lemma_channel_isolation(tail, i - 1);
        assert(tail[i - 1] == rs[i]);
        assert(tail.skip(i) =~= rs.skip(i + 1));
        assert(rs.take(i).skip(1) =~= tail.take(i - 1));
        assert(spec_render(rs.take(i)) == spec_block(rs[0]) + spec_render(tail.take(i - 1)));
        assert(spec_render(rs) =~= spec_render(rs.take(i)) + spec_block(rs[i]) + spec_render(
            rs.skip(i + 1),
        ));
    }
}

/// The sequence of characters of the line answering a particular pet query.
pub open spec fn spec_special_line() -> Seq<char> {
    "在诚哥壶里\n"@
}

/// The keyword that triggers the special line.
pub open spec fn spec_special_keyword() -> Seq<char> {
    seq!['老', '婆']
}

/// Builds the whole reply for a filtered query keyword and the per-channel
/// outcomes: an in-joke line first when the keyword asks for it, then every
/// channel's block in order.
pub fn build_reply(name: &Vec<char>, results: &Vec<ChannelResult>) -> (r: String)
    ensures
        r@ == (if name@ == spec_special_keyword() {
            spec_special_line()
        } else {
            Seq::<char>::empty()
        }) + spec_render(results@),
{
    let special = name.len() == 2 && name[0] == '老' && name[1] == '婆';
    proof {
        if special {
            assert(name@ =~= spec_special_keyword());
        } else {
            if name@ == spec_special_keyword() {
                assert(name@.len() == 2 && name@[0] == '老' && name@[1] == '婆');
            }
        }
    }
    let mut r = if special {
        String::from_str("在诚哥壶里\n")
    } else {
        String::new()
    };
    let body = render_results(results);
    r.append(body.as_str());
    r
}

} // verus!
