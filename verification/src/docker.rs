//! Reading what `docker` and `docker-compose` print: the project name,
//! the services and their states, container logs.

use vstd::prelude::*;
use vstd::string::StringExecFns;

use crate::text::{
    lines_of, lines_spec, lossy_utf8, piece_or, split, split_spec, starts_with, starts_with_spec,
    texts, trim, trim_spec, utf8_lossy, utf8_string,
};
use crate::ui::{parse_status, parse_status_spec, Service};

verus! {

/// Output of a command that is not valid UTF-8.
#[derive(Clone, Copy, Debug, PartialEq, Eq, Structural)]
pub enum OutputError {
    InvalidUtf8,
}

/// The position of the first line that begins with `name:`.
pub open spec fn first_name_line(ls: Seq<Seq<char>>) -> Option<int>
    decreases ls.len(),
{
    if ls.len() == 0 {
        None
    } else {
        match first_name_line(ls.drop_last()) {
            Some(i) => Some(i),
            None => if starts_with_spec(ls.last(), "name:"@) {
                Some(ls.len() - 1)
            } else {
                None
            },
        }
    }
}

/// The project name that `docker-compose config` declares: the trimmed text
/// after the first colon of its first `name:` line, if it has one.
pub open spec fn project_name_spec(config: Seq<char>) -> Option<Seq<char>> {
    let ls = lines_spec(config);
    match first_name_line(ls) {
        Some(i) => Some(trim_spec(piece_or(split_spec(ls[i], ':'), 1, Seq::empty()))),
        None => None,
    }
}

/// The project name declared in the output of `docker-compose config`:
/// `Ok(None)` when no line declares one, an error when the output is not
/// UTF-8.
pub fn project_name_from_config(stdout: Vec<u8>) -> (r: Result<Option<String>, OutputError>)
    ensures
        match r {
            Ok(n) => vstd::utf8::valid_utf8(stdout@) && match project_name_spec(
                vstd::utf8::decode_utf8(stdout@),
            ) {
                Some(t) => n matches Some(s) && s@ == t,
                None => n is None,
            },
            Err(_) => !vstd::utf8::valid_utf8(stdout@),
        },
{
    let ghost bytes = stdout@;
    let config = match utf8_string(stdout) {
        Some(c) => c,
        None => return Err(OutputError::InvalidUtf8),
    };
    let ls = lines_of(config.as_str());
    let ghost spec_ls = lines_spec(config@);
    let mut i: usize = 0;
    while i < ls.len()
        invariant
            i <= ls@.len() == spec_ls.len(),
            spec_ls == lines_spec(config@),
            bytes == stdout@,
            vstd::utf8::valid_utf8(bytes),
            config@ == vstd::utf8::decode_utf8(bytes),
            forall|k: int| 0 <= k < ls@.len() ==> #[trigger] ls@[k]@ == spec_ls[k],
            first_name_line(spec_ls.take(i as int)) is None,
        decreases ls.len() - i,
    {
        assert(spec_ls.take(i + 1).drop_last() =~= spec_ls.take(i as int));
        if starts_with(ls[i].as_str(), "name:") {
            assert(first_name_line(spec_ls.take(i + 1)) == Some(i as int));
            proof {
                lemma_first_name_line_prefix(spec_ls, (i + 1) as int);
            }
            let parts = split(ls[i].as_str(), ':');
            let value = if parts.len() > 1 {
                assert(texts(parts@)[1] == parts@[1]@);
                trim(parts[1].as_str())
            } else {
                proof {
                    reveal_strlit("");
                }
                trim("")
            };
            assert(value@ == project_name_spec(config@)->0);
            return Ok(Some(value));
        }
        i += 1;
    }
    assert(spec_ls.take(ls.len() as int) =~= spec_ls);
    Ok(None)
}

/// A line found among the first `n` lines is the first such line overall.
proof fn lemma_first_name_line_prefix(ls: Seq<Seq<char>>, n: int)
    requires
        0 <= n <= ls.len(),
        first_name_line(ls.take(n)) is Some,
    ensures
        first_name_line(ls) == first_name_line(ls.take(n)),
    decreases ls.len() - n,
{
    if n < ls.len() {
        assert(ls.take(n + 1).drop_last() =~= ls.take(n));
        lemma_first_name_line_prefix(ls, n + 1);
    } else {
        assert(ls.take(n) =~= ls);
    }
}


/// What a service shows: name, container id, status and image.
pub open spec fn service_view(s: Service) -> (Seq<char>, Seq<char>, Seq<char>, Seq<char>) {
    (s.name@, s.container_id@, s.status@, s.image@)
}

/// The service described by one `ID|service|status|image` line of
/// `docker ps`; missing fields read as empty for the id and `unknown`
/// otherwise, and the status is reduced by `parse_status`.
pub open spec fn service_line_spec(line: Seq<char>) -> (Seq<char>, Seq<char>, Seq<char>, Seq<char>) {
    let p = split_spec(line, '|');
    (
        piece_or(p, 1, "unknown"@),
        piece_or(p, 0, Seq::empty()),
        parse_status_spec(piece_or(p, 2, "unknown"@)),
        piece_or(p, 3, "unknown"@),
    )
}

/// The services listed by `docker ps` lines, skipping empty lines.
pub open spec fn services_spec(ls: Seq<Seq<char>>) -> Seq<(Seq<char>, Seq<char>, Seq<char>, Seq<char>)>
    decreases ls.len(),
{
    if ls.len() == 0 {
        Seq::empty()
    } else if ls.last().len() == 0 {
        services_spec(ls.drop_last())
    } else {
        services_spec(ls.drop_last()).push(service_line_spec(ls.last()))
    }
}

/// The piece at `i` of `parts`, or `default` when there are fewer.
fn piece_at(parts: &Vec<String>, i: usize, default: &str) -> (r: String)
    ensures
        r@ == piece_or(texts(parts@), i as int, default@),
{
    if i < parts.len() {
        assert(texts(parts@)[i as int] == parts@[i as int]@);
        parts[i].clone()
    } else {
        default.to_string()
    }
}

/// The service described by one line of `docker ps`.
fn service_from_line(line: &str) -> (s: Service)
    ensures
        service_view(s) == service_line_spec(line@),
{
    let parts = split(line, '|');
    let status = piece_at(&parts, 2, "unknown");
    proof {
        reveal_strlit("");
    }
    Service {
        container_id: piece_at(&parts, 0, ""),
        name: piece_at(&parts, 1, "unknown"),
        status: parse_status(status.as_str()),
        image: piece_at(&parts, 3, "unknown"),
    }
}

/// The services that `docker ps --format '{{.ID}}|{{.Label
/// "com.docker.compose.service"}}|{{.Status}}|{{.Image}}'` printed, one per
/// non-empty line; an error when the output is not UTF-8.
pub fn parse_docker_services(stdout: Vec<u8>) -> (r: Result<Vec<Service>, OutputError>)
    ensures
        match r {
            Ok(v) => vstd::utf8::valid_utf8(stdout@) && v@.map_values(|s: Service| service_view(s))
                == services_spec(lines_spec(vstd::utf8::decode_utf8(stdout@))),
            Err(_) => !vstd::utf8::valid_utf8(stdout@),
        },
{
    let ghost bytes = stdout@;
    let text = match utf8_string(stdout) {
        Some(t) => t,
        None => return Err(OutputError::InvalidUtf8),
    };
    let ls = lines_of(text.as_str());
    let ghost spec_ls = lines_spec(text@);
    let mut out: Vec<Service> = Vec::new();
    let mut i: usize = 0;
    while i < ls.len()
        invariant
            i <= ls@.len() == spec_ls.len(),
            spec_ls == lines_spec(text@),
            bytes == stdout@,
            vstd::utf8::valid_utf8(bytes),
            text@ == vstd::utf8::decode_utf8(bytes),
            forall|k: int| 0 <= k < ls@.len() ==> #[trigger] ls@[k]@ == spec_ls[k],
            out@.map_values(|s: Service| service_view(s)) == services_spec(spec_ls.take(i as int)),
        decreases ls.len() - i,
    {
        assert(spec_ls.take(i + 1).drop_last() =~= spec_ls.take(i as int));
        if !ls[i].as_str().is_empty() {
            let svc = service_from_line(ls[i].as_str());
            let ghost before = out@;
            out.push(svc);
            assert(out@.map_values(|s: Service| service_view(s)) =~= before.map_values(
                |s: Service| service_view(s),
            ).push(service_view(svc)));
        }
        i += 1;
    }
    assert(spec_ls.take(ls.len() as int) =~= spec_ls);
    Ok(out)
}

/// The most lines of logs kept per container.
pub const MAX_LOG_LINES: usize = 500;

/// The last `MAX_LOG_LINES` of a container's log: the lines of its standard
/// output followed by those of its standard error.
pub open spec fn merged_logs_spec(stdout: Seq<u8>, stderr: Seq<u8>) -> Seq<Seq<char>> {
    let all = lines_spec(lossy_utf8(stdout)) + lines_spec(lossy_utf8(stderr));
    if all.len() > MAX_LOG_LINES {
        all.skip(all.len() - MAX_LOG_LINES)
    } else {
        all
    }
}


/// The kept lines of a container's log, from the raw bytes that
/// `docker logs --tail 500` wrote to its standard output and error.
pub fn merge_logs(stdout: &[u8], stderr: &[u8]) -> (lines: Vec<String>)
    ensures
        texts(lines@) == merged_logs_spec(stdout@, stderr@),
        lines@.len() <= MAX_LOG_LINES,
{
    let out = utf8_lossy(stdout);
    let err = utf8_lossy(stderr);
    let mut lines = lines_of(out.as_str());
    let mut more = lines_of(err.as_str());
    let ghost a = lines@;
    let ghost b = more@;
    lines.append(&mut more);
    assert(texts(a) =~= lines_spec(lossy_utf8(stdout@)));
    assert(texts(b) =~= lines_spec(lossy_utf8(stderr@)));
    assert(texts(lines@) =~= texts(a) + texts(b));
    if lines.len() > MAX_LOG_LINES {
        let cut = lines.len() - MAX_LOG_LINES;
        let kept = lines.split_off(cut);
        assert(texts(kept@) =~= texts(a + b).skip(cut as int));
        kept
    } else {
        lines
    }
}

} // verus!
