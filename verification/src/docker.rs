//! The Docker panel's state: containers, images and volumes as the `docker`
//! command lists them, the sections' fold state, the status line, and the
//! commands and terminal task that the panel's buttons run.
use vstd::prelude::*;
use crate::text::{
    is_blank, is_blank_spec, is_digit, push_char, push_str, to_owned_string, usize_to_string,
};

verus! {

/// A container as `docker ps -a --format '{{json .}}'` describes it.
#[derive(Debug, Clone, PartialEq)]
pub struct Container {
    pub id: String,
    pub names: String,
    pub image: String,
    pub state: String,
}

/// An image as `docker images --format '{{json .}}'` describes it.
#[derive(Debug, Clone, PartialEq)]
pub struct Image {
    pub id: String,
    pub repository: String,
    pub tag: String,
    pub size: String,
}

/// A volume as `docker volume ls --format '{{json .}}'` describes it.
#[derive(Debug, Clone, PartialEq)]
pub struct Volume {
    pub name: String,
    pub driver: String,
}

/// What a listing command gave: the parsed items, a failure exit status, or
/// the error text of a `docker` that could not be run.
pub enum ListOutcome<T> {
    Listed(Vec<T>),
    Failed,
    NotRun(String),
}

/// The state of the Docker panel.
pub struct DockerState {
    pub containers: Vec<Container>,
    pub images: Vec<Image>,
    pub volumes: Vec<Volume>,
    pub status: String,
    pub containers_expanded: bool,
    pub images_expanded: bool,
    pub volumes_expanded: bool,
}

/// A terminal task that follows a container's log.
#[derive(Debug, Clone, PartialEq)]
pub struct LogsTask {
    pub id: String,
    pub full_label: String,
    pub label: String,
    pub command_label: String,
    pub command: String,
    pub args: Vec<String>,
}

/// A local time as `%H:%M:%S` prints it: two-digit hour, minute and second
/// separated by colons.
pub open spec fn is_hms_text(t: Seq<char>) -> bool {
    &&& t.len() == 8
    &&& t[2] == ':'
    &&& t[5] == ':'
    &&& is_digit(t[0]) && is_digit(t[1]) && is_digit(t[3]) && is_digit(t[4]) && is_digit(t[6])
        && is_digit(t[7])
}

/// The format of the time stamps in the status line: hour, minute and second.
pub const CLOCK_FORMAT: &'static str = "%H:%M:%S";

/// `chrono::Local::now().format(fmt)` printed. The crate's `Display` of a
/// format fails (and `to_string` panics) on a malformed format string, so
/// `requires` admits the one format the panel uses; for it chrono's
/// documentation gives each field two zero-padded digits. Which time it is,
/// nothing here decides, so the contract states that shape and not the time.
#[verifier::external_body]
fn local_time_text(fmt: &str) -> (r: String)
    requires
        fmt@ == "%H:%M:%S"@,
    ensures
        is_hms_text(r@),
{
    chrono::Local::now().format(fmt).to_string()
}

/// The first 12 characters of an id (all of it when shorter).
pub open spec fn short_id_spec(id: Seq<char>) -> Seq<char> {
    if id.len() <= 12 {
        id
    } else {
        id.take(12)
    }
}

/// The first 12 characters of `id` (`id.chars().take(12).collect()`).
pub fn short_id(id: &str) -> (r: String)
    ensures
        r@ == short_id_spec(id@),
{
    let v = crate::text::chars_of(id);
    let n = if v.len() <= 12 {
        v.len()
    } else {
        12
    };
    assert(v@.subrange(0, n as int) =~= short_id_spec(id@));
    crate::text::string_from_chars(&v, 0, n)
}

/// The views of a list of strings.
pub open spec fn args_view(v: Seq<String>) -> Seq<Seq<char>> {
    v.map_values(|s: String| s@)
}

fn strings2(a: &str, b: &str) -> (r: Vec<String>)
    ensures
        args_view(r@) == seq![a@, b@],
{
    let mut r: Vec<String> = Vec::new();
    r.push(to_owned_string(a));
    r.push(to_owned_string(b));
    assert(args_view(r@) =~= seq![a@, b@]);
    r
}

fn strings3(a: &str, b: &str, c: &str) -> (r: Vec<String>)
    ensures
        args_view(r@) == seq![a@, b@, c@],
{
    let mut r: Vec<String> = Vec::new();
    r.push(to_owned_string(a));
    r.push(to_owned_string(b));
    r.push(to_owned_string(c));
    assert(args_view(r@) =~= seq![a@, b@, c@]);
    r
}

fn strings4(a: &str, b: &str, c: &str, d: &str) -> (r: Vec<String>)
    ensures
        args_view(r@) == seq![a@, b@, c@, d@],
{
    let mut r: Vec<String> = Vec::new();
    r.push(to_owned_string(a));
    r.push(to_owned_string(b));
    r.push(to_owned_string(c));
    r.push(to_owned_string(d));
    assert(args_view(r@) =~= seq![a@, b@, c@, d@]);
    r
}

/// The arguments of `docker` that list all containers as JSON lines.
pub fn containers_list_args() -> (r: Vec<String>)
    ensures
        args_view(r@) == seq!["ps"@, "-a"@, "--format"@, "{{json .}}"@],
{
    strings4("ps", "-a", "--format", "{{json .}}")
}

/// The arguments of `docker` that list the images as JSON lines.
pub fn images_list_args() -> (r: Vec<String>)
    ensures
        args_view(r@) == seq!["images"@, "--format"@, "{{json .}}"@],
{
    strings3("images", "--format", "{{json .}}")
}

/// The arguments of `docker` that list the volumes as JSON lines.
pub fn volumes_list_args() -> (r: Vec<String>)
    ensures
        args_view(r@) == seq!["volume"@, "ls"@, "--format"@, "{{json .}}"@],
{
    strings4("volume", "ls", "--format", "{{json .}}")
}

/// The arguments of `docker` that force-remove an image.
pub fn remove_image_args(image_id: &str) -> (r: Vec<String>)
    ensures
        args_view(r@) == seq!["rmi"@, "-f"@, image_id@],
{
    strings3("rmi", "-f", image_id)
}

/// The arguments of `docker` that force-remove a volume.
pub fn remove_volume_args(volume_name: &str) -> (r: Vec<String>)
    ensures
        args_view(r@) == seq!["volume"@, "rm"@, "-f"@, volume_name@],
{
    strings4("volume", "rm", "-f", volume_name)
}

/// The arguments of `docker` that force-remove a container.
pub fn remove_container_args(container_id: &str) -> (r: Vec<String>)
    ensures
        args_view(r@) == seq!["rm"@, "-f"@, container_id@],
{
    strings3("rm", "-f", container_id)
}

/// The arguments of `docker` that run `action` (start, stop, restart) on a container.
pub fn container_action_args(action: &str, container_id: &str) -> (r: Vec<String>)
    ensures
        args_view(r@) == seq![action@, container_id@],
{
    strings2(action, container_id)
}

/// The terminal task that follows the log of a container.
pub fn logs_task(container_id: &str) -> (r: LogsTask)
    ensures
        ({
            let s = short_id_spec(container_id@);
            &&& r.id@ == "docker-logs-"@ + s
            &&& r.full_label@ == "🐳 Logs — "@ + s
            &&& r.label@ == "🐳 Logs — "@ + s
            &&& r.command_label@ == "docker logs -f "@ + s
            &&& r.command@ == "docker"@
            &&& args_view(r.args@) == seq!["logs"@, "-f"@, container_id@]
        }),
{
    let s = short_id(container_id);
    let mut id = to_owned_string("docker-logs-");
    push_str(&mut id, s.as_str());
    let mut full_label = to_owned_string("🐳 Logs — ");
    push_str(&mut full_label, s.as_str());
    let mut label = to_owned_string("🐳 Logs — ");
    push_str(&mut label, s.as_str());
    let mut command_label = to_owned_string("docker logs -f ");
    push_str(&mut command_label, s.as_str());
    LogsTask {
        id,
        full_label,
        label,
        command_label,
        command: to_owned_string("docker"),
        args: strings3("logs", "-f", container_id),
    }
}

// ------------------------------------------------------------------------
// Lines of command output
// ------------------------------------------------------------------------

/// The pieces of `s` between `\n` characters (one more than there are `\n`).
pub open spec fn split_newlines(s: Seq<char>) -> Seq<Seq<char>>
    decreases s.len(),
{
    if s.len() == 0 {
        seq![seq![]]
    } else {
        let r = split_newlines(s.drop_last());
        if s.last() == '\n' {
            r.push(seq![])
        } else {
            r.update(r.len() - 1, r.last().push(s.last()))
        }
    }
}

/// A line without the one `\r` that may end it.
pub open spec fn strip_cr(l: Seq<char>) -> Seq<char> {
    if l.len() > 0 && l.last() == '\r' {
        l.drop_last()
    } else {
        l
    }
}

/// The lines of `s` as `str::lines` yields them: the pieces between `\n`,
/// each but the last without the `\r` of a `\r\n` ending, and the last piece
/// only when `s` does not end with `\n`.
pub open spec fn lines_spec(s: Seq<char>) -> Seq<Seq<char>> {
    let pieces = split_newlines(s);
    let ended = pieces.drop_last().map_values(|l: Seq<char>| strip_cr(l));
    if s.len() == 0 || s.last() == '\n' {
        ended
    } else {
        ended.push(pieces.last())
    }
}

/// The lines of `lines` that hold something other than white space.
pub open spec fn nonblank(lines: Seq<Seq<char>>) -> Seq<Seq<char>>
    decreases lines.len(),
{
    if lines.len() == 0 {
        seq![]
    } else {
        nonblank(lines.drop_last()) + if is_blank_spec(lines.last()) {
            seq![]
        } else {
            seq![lines.last()]
        }
    }
}

/// No line that the listings are read from is blank.
pub proof fn lemma_nonblank_has_no_blank_line(lines: Seq<Seq<char>>)
    ensures
        forall|i: int| 0 <= i < nonblank(lines).len() ==> !is_blank_spec(#[trigger] nonblank(lines)[i]),
    decreases lines.len(),
{
    if lines.len() > 0 {
        lemma_nonblank_has_no_blank_line(lines.drop_last());
        let a = nonblank(lines.drop_last());
        let b: Seq<Seq<char>> = if is_blank_spec(lines.last()) {
            seq![]
        } else {
            seq![lines.last()]
        };
        assert forall|i: int| 0 <= i < (a + b).len() implies !is_blank_spec(#[trigger] (a + b)[i]) by {
            if i >= a.len() {
                assert((a + b)[i] == b[i - a.len()]);
            }
        }
    }
}

proof fn lemma_split_newlines_len(s: Seq<char>)
    ensures
        split_newlines(s).len() >= 1,
    decreases s.len(),
{
    if s.len() > 0 {
        lemma_split_newlines_len(s.drop_last());
    }
}

proof fn lemma_nonblank_push(lines: Seq<Seq<char>>, l: Seq<char>)
    ensures
        nonblank(lines.push(l)) == nonblank(lines) + if is_blank_spec(l) {
            seq![]
        } else {
            seq![l]
        },
{
    assert(lines.push(l).drop_last() =~= lines);
}

proof fn lemma_strip_map_push(pieces: Seq<Seq<char>>, l: Seq<char>)
    ensures
        pieces.push(l).map_values(|x: Seq<char>| strip_cr(x)) == pieces.map_values(
            |x: Seq<char>| strip_cr(x),
        ).push(strip_cr(l)),
{
    assert(pieces.push(l).map_values(|x: Seq<char>| strip_cr(x)) =~= pieces.map_values(
        |x: Seq<char>| strip_cr(x),
    ).push(strip_cr(l)));
}

/// The lines of `text` that are not blank, as the listing commands' output is read.
pub fn nonblank_lines(text: &str) -> (r: Vec<String>)
    ensures
        args_view(r@) == nonblank(lines_spec(text@)),
{
    let mut out: Vec<String> = Vec::new();
    let mut cur = String::new();
    proof {
        assert(text@.take(0) =~= Seq::<char>::empty());
        assert(args_view(out@) =~= nonblank(
            split_newlines(text@.take(0)).drop_last().map_values(|x: Seq<char>| strip_cr(x)),
        ));
    }
    for c in it: text.chars()
        invariant
            it.seq() == text@,
            ({
                let pieces = split_newlines(text@.take(it.index() as int));
                &&& pieces.len() >= 1
                &&& cur@ == pieces.last()
                &&& args_view(out@) == nonblank(
                    pieces.drop_last().map_values(|x: Seq<char>| strip_cr(x)),
                )
            }),
    {
        let ghost prefix = text@.take(it.index() as int);
        let ghost next = text@.take(it.index() + 1);
        let ghost pieces = split_newlines(prefix);
        assert(next.drop_last() =~= prefix);
        assert(next.last() == c);
        proof {
            lemma_split_newlines_len(prefix);
        }
        if c == '\n' {
            let line = strip_cr_exec(&cur);
            let ghost before = out@;
            if !is_blank(line.as_str()) {
                out.push(line);
            }
            proof {
                assert(split_newlines(next) == pieces.push(seq![]));
                assert(split_newlines(next).drop_last() =~= pieces);
                assert(pieces =~= pieces.drop_last().push(pieces.last()));
                lemma_strip_map_push(pieces.drop_last(), pieces.last());
                lemma_nonblank_push(
                    pieces.drop_last().map_values(|x: Seq<char>| strip_cr(x)),
                    strip_cr(pieces.last()),
                );
                assert(args_view(out@) =~= nonblank(
                    split_newlines(next).drop_last().map_values(|x: Seq<char>| strip_cr(x)),
                ));
            }
            cur = String::new();
        } else {
            push_char(&mut cur, c);
            proof {
                let np = split_newlines(next);
                assert(np == pieces.update(pieces.len() - 1, pieces.last().push(c)));
                assert(np.drop_last() =~= pieces.drop_last());
            }
        }
    }
    proof {
        let pieces = split_newlines(text@);
        assert(text@.take(text@.len() as int) =~= text@);
        lemma_last_piece(text@);
        let ended = pieces.drop_last().map_values(|x: Seq<char>| strip_cr(x));
        lemma_nonblank_push(ended, pieces.last());
        if text@.len() == 0 || text@.last() == '\n' {
            assert(is_blank_spec(pieces.last()));
            assert(ended.push(pieces.last()).drop_last() =~= ended);
        }
    }
    if !is_blank(cur.as_str()) {
        out.push(cur);
    }
    out
}

/// The last piece is empty when `s` is empty or ends with `\n`.
proof fn lemma_last_piece(s: Seq<char>)
    ensures
        (s.len() == 0 || s.last() == '\n') ==> split_newlines(s).last() == Seq::<char>::empty(),
    decreases s.len(),
{
    if s.len() > 0 {
        lemma_split_newlines_len(s.drop_last());
    }
}

fn strip_cr_exec(l: &String) -> (r: String)
    ensures
        r@ == strip_cr(l@),
{
    let v = crate::text::chars_of(l.as_str());
    let n = v.len();
    if n > 0 && v[n - 1] == '\r' {
        crate::text::string_from_chars(&v, 0, n - 1)
    } else {
        assert(v@.subrange(0, n as int) =~= v@);
        crate::text::string_from_chars(&v, 0, n)
    }
}

// ------------------------------------------------------------------------
// What the panel shows
// ------------------------------------------------------------------------

/// Whether a container is running.
pub open spec fn is_running_spec(c: Container) -> bool {
    c.state@ == "running"@
}

/// A container counts as running exactly when its state is `running`: a
/// created, paused, restarting or exited one does not.
pub proof fn lemma_running_exactly(c: Container)
    ensures
        is_running_spec(c) <==> c.state@ == "running"@,
{
}

/// The name under which an image is listed: `repository:tag`, or the
/// repository alone when the tag is empty or `<none>`.
pub open spec fn image_display_name_spec(img: Image) -> Seq<char> {
    if img.tag@ == "<none>"@ || img.tag@.len() == 0 {
        img.repository@
    } else {
        img.repository@ + ":"@ + img.tag@
    }
}

impl Container {
    pub fn is_running(&self) -> (r: bool)
        ensures
            r == is_running_spec(*self),
            r == (self.state@ == "running"@),
    {
        crate::keyed::str_eq(self.state.as_str(), "running")
    }

    /// The state badge: `R` for a running container, `S` otherwise.
    pub fn state_letter(&self) -> (r: String)
        ensures
            r@ == if is_running_spec(*self) {
                "R"@
            } else {
                "S"@
            },
            r@ == if self.state@ == "running"@ {
                "R"@
            } else {
                "S"@
            },
    {
        if self.is_running() {
            to_owned_string("R")
        } else {
            to_owned_string("S")
        }
    }
}

impl Image {
    pub fn display_name(&self) -> (r: String)
        ensures
            r@ == image_display_name_spec(*self),
    {
        if crate::keyed::str_eq(self.tag.as_str(), "<none>") || self.tag.as_str().is_empty() {
            self.repository.clone()
        } else {
            let mut r = self.repository.clone();
            push_str(&mut r, ":");
            push_str(&mut r, self.tag.as_str());
            r
        }
    }
}

/// The status after a refresh at local time `t`.
pub open spec fn refreshed_status(t: Seq<char>) -> Seq<char> {
    "Обновлено "@ + t
}

/// The status while a refresh started at local time `t` runs.
pub open spec fn refreshing_status(t: Seq<char>) -> Seq<char> {
    "Обновление... "@ + t
}

/// The sections' fold state is the same in `a` and `b`.
pub open spec fn same_folds(a: DockerState, b: DockerState) -> bool {
    &&& a.containers_expanded == b.containers_expanded
    &&& a.images_expanded == b.images_expanded
    &&& a.volumes_expanded == b.volumes_expanded
}

/// The listings are the same in `a` and `b`.
pub open spec fn same_lists(a: DockerState, b: DockerState) -> bool {
    &&& a.containers == b.containers
    &&& a.images == b.images
    &&& a.volumes == b.volumes
}

impl DockerState {
    /// The panel before its first refresh: nothing listed, containers unfolded.
    pub fn new() -> (r: DockerState)
        ensures
            r.containers@.len() == 0,
            r.images@.len() == 0,
            r.volumes@.len() == 0,
            r.status@ == "Не обновлялось"@,
            r.containers_expanded,
            !r.images_expanded,
            !r.volumes_expanded,
    {
        DockerState {
            containers: Vec::new(),
            images: Vec::new(),
            volumes: Vec::new(),
            status: to_owned_string("Не обновлялось"),
            containers_expanded: true,
            images_expanded: false,
            volumes_expanded: false,
        }
    }

    pub fn toggle_containers(&mut self)
        ensures
            final(self).containers_expanded == !old(self).containers_expanded,
            final(self).images_expanded == old(self).images_expanded,
            final(self).volumes_expanded == old(self).volumes_expanded,
            same_lists(*final(self), *old(self)),
            final(self).status == old(self).status,
    {
        self.containers_expanded = !self.containers_expanded;
    }

    pub fn toggle_images(&mut self)
        ensures
            final(self).images_expanded == !old(self).images_expanded,
            final(self).containers_expanded == old(self).containers_expanded,
            final(self).volumes_expanded == old(self).volumes_expanded,
            same_lists(*final(self), *old(self)),
            final(self).status == old(self).status,
    {
        self.images_expanded = !self.images_expanded;
    }

    pub fn toggle_volumes(&mut self)
        ensures
            final(self).volumes_expanded == !old(self).volumes_expanded,
            final(self).containers_expanded == old(self).containers_expanded,
            final(self).images_expanded == old(self).images_expanded,
            same_lists(*final(self), *old(self)),
            final(self).status == old(self).status,
    {
        self.volumes_expanded = !self.volumes_expanded;
    }

    /// Marks a refresh as started at local time `time`: the status becomes
    /// `Обновление... {time}`.
    pub fn begin_refresh_at(&mut self, time: &str)
        ensures
            final(self).status@ == refreshing_status(time@),
            same_lists(*final(self), *old(self)),
            same_folds(*final(self), *old(self)),
    {
        let mut s = to_owned_string("Обновление... ");
        push_str(&mut s, time);
        self.status = s;
    }

    /// Marks a refresh as started, stamped with the local time.
    pub fn begin_refresh(&mut self)
        ensures
            exists|t: Seq<char>| is_hms_text(t) && final(self).status@ == refreshing_status(t),
            same_lists(*final(self), *old(self)),
            same_folds(*final(self), *old(self)),
    {
        let t = local_time_text(CLOCK_FORMAT);
        self.begin_refresh_at(t.as_str());
        assert(self.status@ == refreshing_status(t@));
    }

    /// Takes the three listings of a refresh finished at local time `time`:
    /// a successful listing replaces the old one, a failed one keeps it; the
    /// status ends as `Обновлено {time}`.
    pub fn apply_refresh_at(
        &mut self,
        containers: ListOutcome<Container>,
        images: Option<Vec<Image>>,
        volumes: Option<Vec<Volume>>,
        time: &str,
    )
        ensures
            final(self).containers == match containers {
                ListOutcome::Listed(v) => v,
                _ => old(self).containers,
            },
            final(self).images == match images {
                Some(v) => v,
                None => old(self).images,
            },
            final(self).volumes == match volumes {
                Some(v) => v,
                None => old(self).volumes,
            },
            final(self).status@ == refreshed_status(time@),
            same_folds(*final(self), *old(self)),
    {
        match containers {
            ListOutcome::Listed(v) => {
                self.containers = v;
            },
            ListOutcome::Failed => {
                self.status = to_owned_string("docker ps вернул ошибку");
            },
            ListOutcome::NotRun(e) => {
                let mut s = to_owned_string("docker не найден: ");
                push_str(&mut s, e.as_str());
                self.status = s;
            },
        }
        match images {
            Some(v) => {
                self.images = v;
            },
            None => {},
        }
        match volumes {
            Some(v) => {
                self.volumes = v;
            },
            None => {},
        }
        let mut s = to_owned_string("Обновлено ");
        push_str(&mut s, time);
        self.status = s;
    }

    /// Takes the three listings of a refresh that has just finished, stamped
    /// with the local time.
    pub fn finish_refresh(
        &mut self,
        containers: ListOutcome<Container>,
        images: Option<Vec<Image>>,
        volumes: Option<Vec<Volume>>,
    )
        ensures
            final(self).containers == match containers {
                ListOutcome::Listed(v) => v,
                _ => old(self).containers,
            },
            final(self).images == match images {
                Some(v) => v,
                None => old(self).images,
            },
            final(self).volumes == match volumes {
                Some(v) => v,
                None => old(self).volumes,
            },
            exists|t: Seq<char>| is_hms_text(t) && final(self).status@ == refreshed_status(t),
            same_folds(*final(self), *old(self)),
    {
        let t = local_time_text(CLOCK_FORMAT);
        self.apply_refresh_at(containers, images, volumes, t.as_str());
    }

    /// The count shown beside the containers heading.
    pub fn containers_count_label(&self) -> (r: String)
        ensures
            r@ == crate::text::decimal(self.containers@.len()),
    {
        usize_to_string(self.containers.len())
    }

    /// The count shown beside the images heading.
    pub fn images_count_label(&self) -> (r: String)
        ensures
            r@ == crate::text::decimal(self.images@.len()),
    {
        usize_to_string(self.images.len())
    }

    /// The count shown beside the volumes heading.
    pub fn volumes_count_label(&self) -> (r: String)
        ensures
            r@ == crate::text::decimal(self.volumes@.len()),
    {
        usize_to_string(self.volumes.len())
    }
}

} // verus!
