//! Laws on sharing a video out and putting its segments together again.

use crate::laws::lists::is_run;
use crate::laws::texts::{law_numbers_are_digits, law_numbers_are_read};
use crate::models::measure::Fps;
use crate::outside::lossy_text;
use crate::path::PathParts;
use crate::probe::{read_count, ProbeError, ProcessOutput};
use crate::server::combine::{
    check_combine, combine_args, concat_list, concat_list_of, three_digits, Combination,
    CombineError, SegmentFile,
};
use crate::server::frames::{divide_frames, FrameRange};
use crate::server::segment_id::frame_of;
use crate::server::segment_manager::SegmentManager;
use crate::server::state::{assign, output_name, Assignment};
use crate::text::{decimal, fields, is_digit, read_number, texts, NumberError};
use vstd::prelude::*;

verus! {

/// The line that names a file.
pub open spec fn file_line(path: Seq<char>) -> Seq<char> {
    "file '"@ + path + "'"@
}

/// The lists of the files of two lists of paths are the list of both: no path is left
/// out, and none changes places.
pub proof fn law_lists_of_files_add_up(a: Seq<Seq<char>>, b: Seq<Seq<char>>, p: Seq<char>)
    ensures
        concat_list_of(a + b) == concat_list_of(a) + concat_list_of(b),
        concat_list_of(seq![p]) == file_line(p) + "\n"@,
    decreases b.len(),
{
    reveal_strlit("'");
    reveal_strlit("\n");
    reveal_strlit("'\n");
    assert("'\n"@ =~= "'"@ + "\n"@);
    let one = seq![p];
    assert(one.drop_last() =~= Seq::empty());
    assert(concat_list_of(one.drop_last()) =~= Seq::empty());
    assert(concat_list_of(one) =~= file_line(p) + "\n"@);
    if b.len() == 0 {
        assert(a + b =~= a);
        assert(concat_list_of(b) =~= Seq::empty());
        assert(concat_list_of(a + b) =~= concat_list_of(a) + concat_list_of(b));
    } else {
        law_lists_of_files_add_up(a, b.drop_last(), p);
        assert((a + b).drop_last() =~= a + b.drop_last());
        assert((a + b).last() == b.last());
        assert(concat_list_of(a + b) =~= concat_list_of(a) + concat_list_of(b));
    }
}

proof fn lemma_list_fields(paths: Seq<Seq<char>>)
    requires
        forall|i: int| 0 <= i < paths.len() ==> !(#[trigger] paths[i]).contains('\n'),
    ensures
        fields(concat_list_of(paths), '\n').len() == paths.len() + 1,
        fields(concat_list_of(paths), '\n').last().len() == 0,
        forall|i: int|
            0 <= i < paths.len() ==> #[trigger] fields(concat_list_of(paths), '\n')[i]
                == file_line(paths[i]),
    decreases paths.len(),
{
    if paths.len() > 0 {
        let front = paths.drop_last();
        let p = paths.last();
        assert forall|i: int| 0 <= i < front.len() implies !(
        #[trigger] front[i]).contains('\n') by {
            assert(front[i] == paths[i]);
        }
        lemma_list_fields(front);
        law_lists_of_files_add_up(front, seq![p], p);
        assert(front + seq![p] =~= paths);
        reveal_strlit("file '");
        reveal_strlit("'");
        reveal_strlit("\n");
        let line = file_line(p);
        assert(paths[paths.len() - 1] == p);
        assert forall|k: int| 0 <= k < line.len() implies line[k] != '\n' by {
            if 6 <= k < 6 + p.len() {
                assert(line[k] == p[k - 6]);
            }
        }
        let before = concat_list_of(front);
        lemma_fields_of_line(before, line);
        assert(concat_list_of(paths) =~= (before + line).push('\n'));
        let all = fields(concat_list_of(paths), '\n');
        assert forall|i: int| 0 <= i < paths.len() implies #[trigger] all[i] == file_line(
            paths[i],
        ) by {
            if i < front.len() {
                assert(fields(before, '\n')[i] == file_line(front[i]));
            }
        }
    }
}

proof fn lemma_fields_of_line(before: Seq<char>, line: Seq<char>)
    requires
        !line.contains('\n'),
        fields(before, '\n').last().len() == 0,
    ensures
        fields((before + line).push('\n'), '\n') == fields(before, '\n').drop_last().push(
            line,
        ).push(Seq::empty()),
{
    crate::server::segment_id::lemma_fields_append(before, line, '\n');
    crate::server::segment_id::lemma_fields_separator(before + line, '\n');
    assert(fields(before, '\n').last() + line =~= line);
}

/// The list that `ffmpeg` combines has a line for every file, in order, and no other:
/// the line of a file names it.
pub proof fn law_every_file_is_listed(paths: Vec<String>, r: String, i: int)
    requires
        call_ensures(concat_list, (&paths,), r),
        forall|k: int| 0 <= k < paths@.len() ==> !(#[trigger] paths@[k])@.contains('\n'),
    ensures
        fields(r@, '\n').len() == paths@.len() + 1,
        fields(r@, '\n').last().len() == 0,
        0 <= i < paths@.len() ==> fields(r@, '\n')[i] == "file '"@ + paths@[i]@ + "'"@,
{
    let all = texts(paths@);
    assert forall|k: int| 0 <= k < all.len() implies !(#[trigger] all[k]).contains('\n') by {
        assert(all[k] == paths@[k]@);
    }
    lemma_list_fields(all);
    if 0 <= i < paths@.len() {
        assert(all[i] == paths@[i]@);
        assert(fields(concat_list_of(all), '\n')[i] == file_line(all[i]));
    }
}

/// The list for two lists of files, one behind the other, is the one list and then the
/// other.
pub proof fn law_listing_keeps_the_order(
    a: Vec<String>,
    b: Vec<String>,
    both: Vec<String>,
    of_a: String,
    of_b: String,
    of_both: String,
)
    requires
        texts(both@) == texts(a@) + texts(b@),
        call_ensures(concat_list, (&a,), of_a),
        call_ensures(concat_list, (&b,), of_b),
        call_ensures(concat_list, (&both,), of_both),
    ensures
        of_both@ == of_a@ + of_b@,
{
    law_lists_of_files_add_up(texts(a@), texts(b@), Seq::empty());
}

/// The listed files are put one behind the other as they are, frame by frame, into the
/// video of the job.
pub proof fn law_files_are_combined_as_they_are(
    concat_file: &str,
    output_file: &str,
    r: Vec<String>,
    job_id: &str,
    name: String,
    work_dir: PathParts,
    list: PathParts,
)
    requires
        call_ensures(combine_args, (concat_file, output_file), r),
        call_ensures(output_name, (job_id,), name),
        call_ensures(SegmentManager::concat_file, (&work_dir,), list),
    ensures
        is_run(
            texts(r@),
            seq![
                "-y"@,
                "-f"@,
                "concat"@,
                "-safe"@,
                "0"@,
                "-i"@,
                concat_file@,
                "-vsync"@,
                "0"@,
                "-c"@,
                "copy"@,
                output_file@,
            ],
        ),
        name@ == "output_"@ + job_id@ + ".mp4"@,
        list@ == work_dir@.push("concat.txt"@),
{
}

proof fn lemma_leading_zeros(s: Seq<char>)
    requires
        s.len() > 0,
        is_digit(s[0]),
    ensures
        read_number(seq!['0'] + s) == read_number(s),
        read_number(seq!['0', '0'] + s) == read_number(s),
{
    law_numbers_are_read(0, s);
    let z = seq!['0'] + s;
    law_numbers_are_read(0, z);
    assert(seq!['0'] + z =~= seq!['0', '0'] + s);
}

/// The number in the name of a segment's file reads as the segment's place, and has
/// three digits at least, so that the first thousand files sort as their numbers.
pub proof fn law_file_number_reads_back(i: nat)
    requires
        i <= u64::MAX,
    ensures
        read_number(three_digits(i)) == Ok::<nat, NumberError>(i),
        three_digits(i).len() >= 3,
        i < 1000 ==> three_digits(i).len() == 3,
        i < 10 ==> three_digits(i) == "00"@ + decimal(i),
        10 <= i < 100 ==> three_digits(i) == "0"@ + decimal(i),
        i >= 100 ==> three_digits(i) == decimal(i),
{
    reveal_strlit("00");
    reveal_strlit("0");
    law_numbers_are_read(i, Seq::empty());
    law_numbers_are_digits(i);
    lemma_leading_zeros(decimal(i));
    assert("00"@ =~= seq!['0', '0']);
    assert("0"@ =~= seq!['0']);
    if i >= 10 {
        law_numbers_are_digits(i / 10);
        assert(decimal(i).len() == decimal(i / 10).len() + 1);
        if i >= 100 {
            assert(decimal(i / 10).len() == decimal(i / 10 / 10).len() + 1);
            law_numbers_are_digits(i / 10 / 10);
        }
    }
}

/// What is to be combined is every segment that came back, once, in the order of the
/// frames at which they start; the file of each is named by its place and has its
/// format.
pub proof fn law_every_segment_is_combined(m: SegmentManager, r: Combination, i: int, j: int)
    requires
        m.wf(),
        call_ensures(SegmentManager::start_combination, (&m,), r),
    ensures
        r@.clients.no_duplicates(),
        r@.clients.to_set() == m@.segments.dom(),
        r@.names.len() == r@.clients.len(),
        0 <= i < j < r@.clients.len() ==> frame_of(m@.segments[r@.clients[i]].segment_id)
            <= frame_of(m@.segments[r@.clients[j]].segment_id),
        0 <= i < r@.clients.len() ==> r@.names[i] == "segment_"@ + three_digits(i as nat) + "."@
            + m@.segments[r@.clients[i]].format,
        r@.counted == 0,
        r@.total_frames == 0,
{
    assert(r@.clients.to_set() =~= m@.segments.dom()) by {
        assert forall|c: Seq<char>| r@.clients.to_set().contains(c)
            <==> m@.segments.dom().contains(c) by {
            assert(r@.clients.contains(c) <==> m@.segments.contains_key(c));
        }
    }
    if 0 <= i < r@.clients.len() {
        assert(r@.names[i] == crate::server::combine::segment_file_name(
            i as nat,
            m@.segments[r@.clients[i]].format,
        ));
    }
}

/// The files are written out and counted one after the other, until none is left.
pub proof fn law_files_come_one_by_one(c: Combination, r: Option<&SegmentFile>)
    requires
        call_ensures(Combination::next_file, (&c,), r),
    ensures
        r is Some <==> c@.counted < c@.clients.len(),
        r matches Some(f) ==> f.client_id@ == c@.clients[c@.counted as int] && f.file_name@
            == c@.names[c@.counted as int],
{
}

/// A counted segment adds its frames to those before, and the next one follows.
pub proof fn law_frames_add_up(c: &mut Combination, frames: u64)
    requires
        call_ensures(Combination::add_segment_count, (c, frames), ()),
    ensures
        final(c)@.total_frames == old(c)@.total_frames + frames,
        final(c)@.counted == old(c)@.counted + 1,
        final(c)@.clients == old(c)@.clients,
        final(c)@.names == old(c)@.names,
{
}

/// The frames of a segment are those that `ffprobe` printed, if it succeeded; else it is
/// told which segment could not be counted.
pub proof fn law_segment_frames_are_read(
    c: Combination,
    output: ProcessOutput,
    r: Result<u64, CombineError>,
    read: Result<u64, ProbeError>,
)
    requires
        call_ensures(Combination::read_segment_count, (&c, output), r),
        call_ensures(read_count, (output.stdout,), read),
    ensures
        r is Ok <==> output.success && read is Ok,
        r is Ok ==> r->Ok_0 == read->Ok_0,
        r matches Err(e) ==> if output.success {
            read is Err && (e matches CombineError::Probe(p) && p@ == read->Err_0@)
        } else {
            e matches CombineError::SegmentCount(i) && i == c@.counted
        },
{
    let printed = output.stdout@;
    if output.success {
        assert(c@.next_count(true, printed) == c@.next_count(output.success, printed));
    }
}

/// A combined video is taken exactly if it has as many frames as were counted in its
/// segments; else it is told how many it should have and has.
pub proof fn law_combined_video_has_all_frames(
    c: Combination,
    stdout: Vec<u8>,
    r: Result<(), CombineError>,
    read: Result<u64, ProbeError>,
    output: ProcessOutput,
    made: Result<(), CombineError>,
)
    requires
        call_ensures(Combination::check_total, (&c, stdout), r),
        call_ensures(read_count, (stdout,), read),
        call_ensures(check_combine, (&output,), made),
    ensures
        r is Ok <==> read is Ok && read->Ok_0 == c@.total_frames,
        r matches Err(e) ==> match read {
            Ok(n) => e matches CombineError::Mismatch { expected, got } && expected
                == c@.total_frames && got == n,
            Err(p) => e matches CombineError::Probe(q) && q@ == p@,
        },
        made is Ok <==> output.success,
        made matches Err(e) ==> (e matches CombineError::Combine(w) && w@
            == lossy_text(output.stderr@)),
{
}

/// What is told of a failure says what failed, and how.
pub proof fn law_failed_combination_says_why(
    e: CombineError,
    r: String,
    p: ProbeError,
    told: String,
)
    requires
        call_ensures(CombineError::message, (&e,), r),
        call_ensures(ProbeError::message, (&p,), told),
    ensures
        match e {
            CombineError::SegmentCount(i) => r@ == "Failed to verify segment "@ + decimal(i as nat)
                + " frame count"@,
            CombineError::Probe(q) => q@ == p@ ==> r@ == told@,
            CombineError::Combine(w) => r@ == "Failed to combine segments: "@ + w@,
            CombineError::Mismatch { expected, got } => r@ == "Frame count mismatch: expected "@
                + decimal(expected as nat) + " frames but got "@ + decimal(got as nat)
                + " in final output"@,
        },
{
}

/// Every client gets the range that stands at its place, and its own name with it.
pub proof fn law_every_client_gets_its_range(
    clients: Vec<(String, Fps)>,
    speeds: Vec<Fps>,
    total_frames: u64,
    r: Vec<Assignment>,
    ranges: Vec<FrameRange>,
    i: int,
)
    requires
        clients.len() > 0,
        speeds@.len() == clients@.len(),
        forall|k: int| 0 <= k < clients@.len() ==> #[trigger] speeds@[k] == clients@[k].1,
        call_ensures(assign, (&clients, total_frames), r),
        call_ensures(divide_frames, (total_frames, &speeds), ranges),
        0 <= i < clients@.len(),
    ensures
        r@.len() == clients@.len(),
        r@[i].client_id@ == clients@[i].0@,
        r@[i].range.start == ranges@[i].start && r@[i].range.end == ranges@[i].end,
        total_frames as nat / clients@.len() <= r@[i].range.end - r@[i].range.start
            <= total_frames as nat / clients@.len() + 1,
{
    let n = crate::server::state::assigned_names(r@);
    assert(n[i] == r@[i].client_id@);
    assert(crate::server::state::client_names(clients@)[i] == clients@[i].0@);
    let got = crate::server::frames::bounds(crate::server::state::assigned_ranges(r@));
    assert(crate::server::state::client_speeds(clients@) =~= speeds@);
    assert(got == crate::server::frames::bounds(ranges@));
    assert(got[i] == (r@[i].range.start as int, r@[i].range.end as int));
    assert(crate::server::frames::bounds(ranges@).len() == ranges@.len());
    assert(crate::server::frames::bounds(ranges@)[i] == (
        ranges@[i].start as int,
        ranges@[i].end as int,
    ));
    let want = crate::server::frames::frame_ranges(total_frames as nat, speeds@);
    assert(want[i].1 - want[i].0 == crate::server::frames::share(total_frames as nat, speeds@, i));
}

/// The frames that were counted so far are told.
pub proof fn law_frames_so_far_are_told(c: Combination, r: u64)
    requires
        call_ensures(Combination::frames_so_far, (&c,), r),
    ensures
        r == c@.total_frames,
{
}

} // verus!
