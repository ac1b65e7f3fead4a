use vstd::prelude::*;
use vstd::string::*;

verus! {

/// Where the last segment of `s` begins: just after its last `/`, or at 0.
pub open spec fn last_segment_start(s: Seq<char>) -> int
    decreases s.len(),
{
    if s.len() == 0 {
        0
    } else if s.last() == '/' {
        s.len() as int
    } else {
        last_segment_start(s.drop_last())
    }
}

/// The final component of a path: empty segments and `.` segments are
/// skipped, and a path that ends in `..` or has no component has no name.
pub open spec fn file_name_of(s: Seq<char>) -> Option<Seq<char>>
    decreases s.len(),
{
    let start = last_segment_start(s);
    let seg = s.subrange(start, s.len() as int);
    if seg.len() == 0 || seg == seq!['.'] {
        if start <= 0 || start > s.len() {
            None
        } else {
            file_name_of(s.subrange(0, start - 1))
        }
    } else if seg == seq!['.', '.'] {
        None
    } else {
        Some(seg)
    }
}

/// The base name of a path, as the file's name in an uploaded document.
pub fn get_filename(file_path: &str) -> (r: Option<String>)
    ensures
        r matches Some(n) ==> file_name_of(file_path@) == Some(n@),
        r is None ==> file_name_of(file_path@) is None,
{
    let ghost s = file_path@;
    let len = file_path.unicode_len();
    let mut end: usize = len;
    assert(s.subrange(0, end as int) =~= s);
    loop
        invariant
            end <= len == s.len(),
            s == file_path@,
            file_name_of(s) == file_name_of(s.subrange(0, end as int)),
        decreases end,
    {
        let ghost p = s.subrange(0, end as int);
        let mut start: usize = end;
        while start > 0 && file_path.get_char(start - 1) != '/'
            invariant
                start <= end <= len == s.len(),
                s == file_path@,
                p == s.subrange(0, end as int),
                last_segment_start(p) == last_segment_start(s.subrange(0, start as int)),
            decreases start,
        {
            assert(s.subrange(0, start as int).drop_last() =~= s.subrange(0, start - 1));
            start = start - 1;
        }
        assert(last_segment_start(p) == start) by {
            if start > 0 {
                assert(s.subrange(0, start as int).last() == '/');
            }
        }
        let ghost seg = p.subrange(start as int, end as int);
        assert(seg =~= s.subrange(start as int, end as int));
        let n: usize = end - start;
        let dot = n == 1 && file_path.get_char(start) == '.';
        let dotdot = n == 2 && file_path.get_char(start) == '.' && file_path.get_char(start + 1)
            == '.';
        if n == 0 || dot {
            assert(seg.len() == 0 || seg =~= seq!['.']);
            if start == 0 {
                return None;
            }
            assert(p.subrange(0, start - 1) =~= s.subrange(0, start - 1));
            end = start - 1;
        } else if dotdot {
            assert(seg =~= seq!['.', '.']);
            return None;
        } else {
            assert(seg != seq!['.']) by {
                if seg == seq!['.'] {
                    assert(seg[0] == seq!['.'][0]);
                }
            }
            assert(seg != seq!['.', '.']) by {
                if seg == seq!['.', '.'] {
                    assert(seg[0] == seq!['.', '.'][0]);
                    assert(seg[1] == seq!['.', '.'][1]);
                }
            }
            let name = file_path.substring_char(start, end);
            return Some(String::from_str(name));
        }
    }
}

} // verus!
