//! Command lines as lists of pieces: fixed text and the places of fields.

use vstd::prelude::*;

verus! {

/// A value that a command line can mention: one per kind of field of a
/// target, and the path of the artifact that the command produces.
#[derive(Clone, Copy, Debug, PartialEq, Eq, Structural)]
pub enum Field {
    Host,
    Port,
    Database,
    User,
    Password,
    Container,
    Source,
    Artifact,
}

/// One piece of a command line: fixed text, or the place of a field.
#[derive(Clone, Copy, Debug, PartialEq, Eq)]
pub enum Piece {
    Text(&'static str),
    Slot(Field),
}

/// A `Piece` with its text as a sequence of characters.
pub enum PieceView {
    Text(Seq<char>),
    Slot(Field),
}

impl View for Piece {
    type V = PieceView;

    open spec fn view(&self) -> PieceView {
        match *self {
            Piece::Text(text) => PieceView::Text(text@),
            Piece::Slot(field) => PieceView::Slot(field),
        }
    }
}

/// The pieces of `line`, each by its view.
pub open spec fn line_view(line: Seq<Piece>) -> Seq<PieceView> {
    Seq::new(line.len(), |i: int| line[i]@)
}

/// The lines of `lines`, each by its view.
pub open spec fn lines_view(lines: Seq<Vec<Piece>>) -> Seq<Seq<PieceView>> {
    Seq::new(lines.len(), |i: int| line_view(lines[i]@))
}

/// `line` holds the place of `field` at one index and at no other.
pub open spec fn mentions_once(line: Seq<PieceView>, field: Field) -> bool {
    exists|i: int|
        0 <= i < line.len() && #[trigger] line[i] == PieceView::Slot(field) && forall|j: int|
            0 <= j < line.len() && #[trigger] line[j] == PieceView::Slot(field) ==> j == i
}

/// `line` holds the place of `field` nowhere.
pub open spec fn mentions_never(line: Seq<PieceView>, field: Field) -> bool {
    forall|j: int| 0 <= j < line.len() ==> #[trigger] line[j] != PieceView::Slot(field)
}

/// A line that holds the place of `field` at `at` and nowhere else mentions
/// the field once.
pub(crate) proof fn lemma_once_at(line: Seq<PieceView>, field: Field, at: int)
    requires
        0 <= at < line.len(),
        line[at] == PieceView::Slot(field),
        forall|j: int| 0 <= j < line.len() && j != at ==> line[j] != PieceView::Slot(field),
    ensures
        mentions_once(line, field),
{
}

/// A line that mentions a field once does not mention it never.
pub(crate) proof fn lemma_once_excludes_never(line: Seq<PieceView>, field: Field)
    requires
        mentions_once(line, field),
    ensures
        !mentions_never(line, field),
{
    let at = choose|i: int|
        0 <= i < line.len() && #[trigger] line[i] == PieceView::Slot(field) && forall|j: int|
            0 <= j < line.len() && #[trigger] line[j] == PieceView::Slot(field) ==> j == i;
    assert(line[at] == PieceView::Slot(field));
}

/// A `pg_dump` of a database on a host, into the artifact.
pub open spec fn postgresql_template() -> Seq<PieceView> {
    seq![
        PieceView::Text("PGPASSWORD=\""@),
        PieceView::Slot(Field::Password),
        PieceView::Text("\" pg_dump -U "@),
        PieceView::Slot(Field::User),
        PieceView::Text(" -h "@),
        PieceView::Slot(Field::Host),
        PieceView::Text(" -p "@),
        PieceView::Slot(Field::Port),
        PieceView::Text(" "@),
        PieceView::Slot(Field::Database),
        PieceView::Text(" > "@),
        PieceView::Slot(Field::Artifact),
    ]
}

pub(crate) fn postgresql_line() -> (r: Vec<Piece>)
    ensures
        line_view(r@) == postgresql_template(),
{
    let r: Vec<Piece> = vec![
        Piece::Text("PGPASSWORD=\""),
        Piece::Slot(Field::Password),
        Piece::Text("\" pg_dump -U "),
        Piece::Slot(Field::User),
        Piece::Text(" -h "),
        Piece::Slot(Field::Host),
        Piece::Text(" -p "),
        Piece::Slot(Field::Port),
        Piece::Text(" "),
        Piece::Slot(Field::Database),
        Piece::Text(" > "),
        Piece::Slot(Field::Artifact),
    ];
    assert(line_view(r@) =~= postgresql_template());
    r
}

/// The fields that the line mentions, each once.
pub(crate) proof fn lemma_postgresql_slots(field: Field)
    ensures
        if field == Field::Password || field == Field::User || field == Field::Host
            || field == Field::Port || field == Field::Database || field == Field::Artifact {
            mentions_once(postgresql_template(), field)
        } else {
            mentions_never(postgresql_template(), field)
        },
{
    let line = postgresql_template();
    assert(line.len() == 12);
    match field {
        Field::Host => {
            lemma_once_at(line, field, 5);
        },
        Field::Port => {
            lemma_once_at(line, field, 7);
        },
        Field::Database => {
            lemma_once_at(line, field, 9);
        },
        Field::User => {
            lemma_once_at(line, field, 3);
        },
        Field::Password => {
            lemma_once_at(line, field, 1);
        },
        Field::Artifact => {
            lemma_once_at(line, field, 11);
        },
        _ => {},
    }
}

/// A `pg_dump` inside a container, its output led into the artifact.
pub open spec fn postgresql_docker_template() -> Seq<PieceView> {
    seq![
        PieceView::Text("docker exec "@),
        PieceView::Slot(Field::Container),
        PieceView::Text(" bash -c \"PGPASSWORD='"@),
        PieceView::Slot(Field::Password),
        PieceView::Text("' pg_dump -U "@),
        PieceView::Slot(Field::User),
        PieceView::Text(" "@),
        PieceView::Slot(Field::Database),
        PieceView::Text("\" > "@),
        PieceView::Slot(Field::Artifact),
    ]
}

pub(crate) fn postgresql_docker_line() -> (r: Vec<Piece>)
    ensures
        line_view(r@) == postgresql_docker_template(),
{
    let r: Vec<Piece> = vec![
        Piece::Text("docker exec "),
        Piece::Slot(Field::Container),
        Piece::Text(" bash -c \"PGPASSWORD='"),
        Piece::Slot(Field::Password),
        Piece::Text("' pg_dump -U "),
        Piece::Slot(Field::User),
        Piece::Text(" "),
        Piece::Slot(Field::Database),
        Piece::Text("\" > "),
        Piece::Slot(Field::Artifact),
    ];
    assert(line_view(r@) =~= postgresql_docker_template());
    r
}

/// The fields that the line mentions, each once.
pub(crate) proof fn lemma_postgresql_docker_slots(field: Field)
    ensures
        if field == Field::Container || field == Field::Password || field == Field::User
            || field == Field::Database || field == Field::Artifact {
            mentions_once(postgresql_docker_template(), field)
        } else {
            mentions_never(postgresql_docker_template(), field)
        },
{
    let line = postgresql_docker_template();
    assert(line.len() == 10);
    match field {
        Field::Database => {
            lemma_once_at(line, field, 7);
        },
        Field::User => {
            lemma_once_at(line, field, 5);
        },
        Field::Password => {
            lemma_once_at(line, field, 3);
        },
        Field::Container => {
            lemma_once_at(line, field, 1);
        },
        Field::Artifact => {
            lemma_once_at(line, field, 9);
        },
        _ => {},
    }
}

/// A `mongodump` of a host with a user name and a password, into the artifact.
pub open spec fn mongodb_login_template() -> Seq<PieceView> {
    seq![
        PieceView::Text("mongodump --host "@),
        PieceView::Slot(Field::Host),
        PieceView::Text(" --port "@),
        PieceView::Slot(Field::Port),
        PieceView::Text(" --username "@),
        PieceView::Slot(Field::User),
        PieceView::Text(" --password "@),
        PieceView::Slot(Field::Password),
        PieceView::Text(" --authenticationDatabase admin --archive="@),
        PieceView::Slot(Field::Artifact),
        PieceView::Text(" --gzip"@),
    ]
}

pub(crate) fn mongodb_login_line() -> (r: Vec<Piece>)
    ensures
        line_view(r@) == mongodb_login_template(),
{
    let r: Vec<Piece> = vec![
        Piece::Text("mongodump --host "),
        Piece::Slot(Field::Host),
        Piece::Text(" --port "),
        Piece::Slot(Field::Port),
        Piece::Text(" --username "),
        Piece::Slot(Field::User),
        Piece::Text(" --password "),
        Piece::Slot(Field::Password),
        Piece::Text(" --authenticationDatabase admin --archive="),
        Piece::Slot(Field::Artifact),
        Piece::Text(" --gzip"),
    ];
    assert(line_view(r@) =~= mongodb_login_template());
    r
}

/// The fields that the line mentions, each once.
pub(crate) proof fn lemma_mongodb_login_slots(field: Field)
    ensures
        if field == Field::Host || field == Field::Port || field == Field::User
            || field == Field::Password || field == Field::Artifact {
            mentions_once(mongodb_login_template(), field)
        } else {
            mentions_never(mongodb_login_template(), field)
        },
{
    let line = mongodb_login_template();
    assert(line.len() == 11);
    match field {
        Field::Host => {
            lemma_once_at(line, field, 1);
        },
        Field::Port => {
            lemma_once_at(line, field, 3);
        },
        Field::User => {
            lemma_once_at(line, field, 5);
        },
        Field::Password => {
            lemma_once_at(line, field, 7);
        },
        Field::Artifact => {
            lemma_once_at(line, field, 9);
        },
        _ => {},
    }
}

/// A `mongodump` of a host with a user name and no password, into the
/// artifact.
pub open spec fn mongodb_user_template() -> Seq<PieceView> {
    seq![
        PieceView::Text("mongodump --host "@),
        PieceView::Slot(Field::Host),
        PieceView::Text(" --port "@),
        PieceView::Slot(Field::Port),
        PieceView::Text(" --username "@),
        PieceView::Slot(Field::User),
        PieceView::Text(" --authenticationDatabase admin --archive="@),
        PieceView::Slot(Field::Artifact),
        PieceView::Text(" --gzip"@),
    ]
}

pub(crate) fn mongodb_user_line() -> (r: Vec<Piece>)
    ensures
        line_view(r@) == mongodb_user_template(),
{
    let r: Vec<Piece> = vec![
        Piece::Text("mongodump --host "),
        Piece::Slot(Field::Host),
        Piece::Text(" --port "),
        Piece::Slot(Field::Port),
        Piece::Text(" --username "),
        Piece::Slot(Field::User),
        Piece::Text(" --authenticationDatabase admin --archive="),
        Piece::Slot(Field::Artifact),
        Piece::Text(" --gzip"),
    ];
    assert(line_view(r@) =~= mongodb_user_template());
    r
}

/// The fields that the line mentions, each once.
pub(crate) proof fn lemma_mongodb_user_slots(field: Field)
    ensures
        if field == Field::Host || field == Field::Port || field == Field::User
            || field == Field::Artifact {
            mentions_once(mongodb_user_template(), field)
        } else {
            mentions_never(mongodb_user_template(), field)
        },
{
    let line = mongodb_user_template();
    assert(line.len() == 9);
    match field {
        Field::Host => {
            lemma_once_at(line, field, 1);
        },
        Field::Port => {
            lemma_once_at(line, field, 3);
        },
        Field::User => {
            lemma_once_at(line, field, 5);
        },
        Field::Artifact => {
            lemma_once_at(line, field, 7);
        },
        _ => {},
    }
}

/// A `mongodump` of a host without credentials, into the artifact.
pub open spec fn mongodb_open_template() -> Seq<PieceView> {
    seq![
        PieceView::Text("mongodump --host "@),
        PieceView::Slot(Field::Host),
        PieceView::Text(" --port "@),
        PieceView::Slot(Field::Port),
        PieceView::Text(" --archive="@),
        PieceView::Slot(Field::Artifact),
        PieceView::Text(" --gzip"@),
    ]
}

pub(crate) fn mongodb_open_line() -> (r: Vec<Piece>)
    ensures
        line_view(r@) == mongodb_open_template(),
{
    let r: Vec<Piece> = vec![
        Piece::Text("mongodump --host "),
        Piece::Slot(Field::Host),
        Piece::Text(" --port "),
        Piece::Slot(Field::Port),
        Piece::Text(" --archive="),
        Piece::Slot(Field::Artifact),
        Piece::Text(" --gzip"),
    ];
    assert(line_view(r@) =~= mongodb_open_template());
    r
}

/// The fields that the line mentions, each once.
pub(crate) proof fn lemma_mongodb_open_slots(field: Field)
    ensures
        if field == Field::Host || field == Field::Port || field == Field::Artifact {
            mentions_once(mongodb_open_template(), field)
        } else {
            mentions_never(mongodb_open_template(), field)
        },
{
    let line = mongodb_open_template();
    assert(line.len() == 7);
    match field {
        Field::Host => {
            lemma_once_at(line, field, 1);
        },
        Field::Port => {
            lemma_once_at(line, field, 3);
        },
        Field::Artifact => {
            lemma_once_at(line, field, 5);
        },
        _ => {},
    }
}

/// A `mongodump` inside a container with a user name and a password, into an
/// archive inside the container.
pub open spec fn mongodb_docker_login_template() -> Seq<PieceView> {
    seq![
        PieceView::Text("docker exec "@),
        PieceView::Slot(Field::Container),
        PieceView::Text(" mongodump --username "@),
        PieceView::Slot(Field::User),
        PieceView::Text(" --password "@),
        PieceView::Slot(Field::Password),
        PieceView::Text(" --authenticationDatabase admin --archive=/backup/backup.gz --gzip"@),
    ]
}

pub(crate) fn mongodb_docker_login_line() -> (r: Vec<Piece>)
    ensures
        line_view(r@) == mongodb_docker_login_template(),
{
    let r: Vec<Piece> = vec![
        Piece::Text("docker exec "),
        Piece::Slot(Field::Container),
        Piece::Text(" mongodump --username "),
        Piece::Slot(Field::User),
        Piece::Text(" --password "),
        Piece::Slot(Field::Password),
        Piece::Text(" --authenticationDatabase admin --archive=/backup/backup.gz --gzip"),
    ];
    assert(line_view(r@) =~= mongodb_docker_login_template());
    r
}

/// The fields that the line mentions, each once.
pub(crate) proof fn lemma_mongodb_docker_login_slots(field: Field)
    ensures
        if field == Field::Container || field == Field::User || field == Field::Password {
            mentions_once(mongodb_docker_login_template(), field)
        } else {
            mentions_never(mongodb_docker_login_template(), field)
        },
{
    let line = mongodb_docker_login_template();
    assert(line.len() == 7);
    match field {
        Field::User => {
            lemma_once_at(line, field, 3);
        },
        Field::Password => {
            lemma_once_at(line, field, 5);
        },
        Field::Container => {
            lemma_once_at(line, field, 1);
        },
        _ => {},
    }
}

/// A `mongodump` inside a container with a user name and no password, into
/// an archive inside the container.
pub open spec fn mongodb_docker_user_template() -> Seq<PieceView> {
    seq![
        PieceView::Text("docker exec "@),
        PieceView::Slot(Field::Container),
        PieceView::Text(" mongodump --username "@),
        PieceView::Slot(Field::User),
        PieceView::Text(" --authenticationDatabase admin --archive=/backup/backup.gz --gzip"@),
    ]
}

pub(crate) fn mongodb_docker_user_line() -> (r: Vec<Piece>)
    ensures
        line_view(r@) == mongodb_docker_user_template(),
{
    let r: Vec<Piece> = vec![
        Piece::Text("docker exec "),
        Piece::Slot(Field::Container),
        Piece::Text(" mongodump --username "),
        Piece::Slot(Field::User),
        Piece::Text(" --authenticationDatabase admin --archive=/backup/backup.gz --gzip"),
    ];
    assert(line_view(r@) =~= mongodb_docker_user_template());
    r
}

/// The fields that the line mentions, each once.
pub(crate) proof fn lemma_mongodb_docker_user_slots(field: Field)
    ensures
        if field == Field::Container || field == Field::User {
            mentions_once(mongodb_docker_user_template(), field)
        } else {
            mentions_never(mongodb_docker_user_template(), field)
        },
{
    let line = mongodb_docker_user_template();
    assert(line.len() == 5);
    match field {
        Field::User => {
            lemma_once_at(line, field, 3);
        },
        Field::Container => {
            lemma_once_at(line, field, 1);
        },
        _ => {},
    }
}

/// A `mongodump` inside a container without credentials, into an archive
/// inside the container.
pub open spec fn mongodb_docker_open_template() -> Seq<PieceView> {
    seq![
        PieceView::Text("docker exec "@),
        PieceView::Slot(Field::Container),
        PieceView::Text(" mongodump --archive=/backup/backup.gz --gzip"@),
    ]
}

pub(crate) fn mongodb_docker_open_line() -> (r: Vec<Piece>)
    ensures
        line_view(r@) == mongodb_docker_open_template(),
{
    let r: Vec<Piece> = vec![
        Piece::Text("docker exec "),
        Piece::Slot(Field::Container),
        Piece::Text(" mongodump --archive=/backup/backup.gz --gzip"),
    ];
    assert(line_view(r@) =~= mongodb_docker_open_template());
    r
}

/// The fields that the line mentions, each once.
pub(crate) proof fn lemma_mongodb_docker_open_slots(field: Field)
    ensures
        if field == Field::Container {
            mentions_once(mongodb_docker_open_template(), field)
        } else {
            mentions_never(mongodb_docker_open_template(), field)
        },
{
    let line = mongodb_docker_open_template();
    assert(line.len() == 3);
    match field {
        Field::Container => {
            lemma_once_at(line, field, 1);
        },
        _ => {},
    }
}

/// The copy of the archive out of the container, to the artifact.
pub open spec fn mongodb_docker_copy_template() -> Seq<PieceView> {
    seq![
        PieceView::Text("docker cp "@),
        PieceView::Slot(Field::Container),
        PieceView::Text(":/backup/backup.gz "@),
        PieceView::Slot(Field::Artifact),
    ]
}

pub(crate) fn mongodb_docker_copy_line() -> (r: Vec<Piece>)
    ensures
        line_view(r@) == mongodb_docker_copy_template(),
{
    let r: Vec<Piece> = vec![
        Piece::Text("docker cp "),
        Piece::Slot(Field::Container),
        Piece::Text(":/backup/backup.gz "),
        Piece::Slot(Field::Artifact),
    ];
    assert(line_view(r@) =~= mongodb_docker_copy_template());
    r
}

/// The fields that the line mentions, each once.
pub(crate) proof fn lemma_mongodb_docker_copy_slots(field: Field)
    ensures
        if field == Field::Container || field == Field::Artifact {
            mentions_once(mongodb_docker_copy_template(), field)
        } else {
            mentions_never(mongodb_docker_copy_template(), field)
        },
{
    let line = mongodb_docker_copy_template();
    assert(line.len() == 4);
    match field {
        Field::Container => {
            lemma_once_at(line, field, 1);
        },
        Field::Artifact => {
            lemma_once_at(line, field, 3);
        },
        _ => {},
    }
}

/// A compressed `tar` archive of a directory, written to the artifact.
pub open spec fn folder_template() -> Seq<PieceView> {
    seq![
        PieceView::Text("tar -czvf "@),
        PieceView::Slot(Field::Artifact),
        PieceView::Text(" -C "@),
        PieceView::Slot(Field::Source),
        PieceView::Text(" ."@),
    ]
}

pub(crate) fn folder_line() -> (r: Vec<Piece>)
    ensures
        line_view(r@) == folder_template(),
{
    let r: Vec<Piece> = vec![
        Piece::Text("tar -czvf "),
        Piece::Slot(Field::Artifact),
        Piece::Text(" -C "),
        Piece::Slot(Field::Source),
        Piece::Text(" ."),
    ];
    assert(line_view(r@) =~= folder_template());
    r
}

/// The fields that the line mentions, each once.
pub(crate) proof fn lemma_folder_slots(field: Field)
    ensures
        if field == Field::Artifact || field == Field::Source {
            mentions_once(folder_template(), field)
        } else {
            mentions_never(folder_template(), field)
        },
{
    let line = folder_template();
    assert(line.len() == 5);
    match field {
        Field::Source => {
            lemma_once_at(line, field, 3);
        },
        Field::Artifact => {
            lemma_once_at(line, field, 1);
        },
        _ => {},
    }
}

/// A `mysqldump` of a database on a host, into the artifact.
pub open spec fn mysql_template() -> Seq<PieceView> {
    seq![
        PieceView::Text("MYSQL_PWD="@),
        PieceView::Slot(Field::Password),
        PieceView::Text(" mysqldump -u "@),
        PieceView::Slot(Field::User),
        PieceView::Text(" -h "@),
        PieceView::Slot(Field::Host),
        PieceView::Text(" -P "@),
        PieceView::Slot(Field::Port),
        PieceView::Text(" "@),
        PieceView::Slot(Field::Database),
        PieceView::Text(" > "@),
        PieceView::Slot(Field::Artifact),
    ]
}

pub(crate) fn mysql_line() -> (r: Vec<Piece>)
    ensures
        line_view(r@) == mysql_template(),
{
    let r: Vec<Piece> = vec![
        Piece::Text("MYSQL_PWD="),
        Piece::Slot(Field::Password),
        Piece::Text(" mysqldump -u "),
        Piece::Slot(Field::User),
        Piece::Text(" -h "),
        Piece::Slot(Field::Host),
        Piece::Text(" -P "),
        Piece::Slot(Field::Port),
        Piece::Text(" "),
        Piece::Slot(Field::Database),
        Piece::Text(" > "),
        Piece::Slot(Field::Artifact),
    ];
    assert(line_view(r@) =~= mysql_template());
    r
}

/// The fields that the line mentions, each once.
pub(crate) proof fn lemma_mysql_slots(field: Field)
    ensures
        if field == Field::Password || field == Field::User || field == Field::Host
            || field == Field::Port || field == Field::Database || field == Field::Artifact {
            mentions_once(mysql_template(), field)
        } else {
            mentions_never(mysql_template(), field)
        },
{
    let line = mysql_template();
    assert(line.len() == 12);
    match field {
        Field::Host => {
            lemma_once_at(line, field, 5);
        },
        Field::Port => {
            lemma_once_at(line, field, 7);
        },
        Field::Database => {
            lemma_once_at(line, field, 9);
        },
        Field::User => {
            lemma_once_at(line, field, 3);
        },
        Field::Password => {
            lemma_once_at(line, field, 1);
        },
        Field::Artifact => {
            lemma_once_at(line, field, 11);
        },
        _ => {},
    }
}

/// A `mysqldump` inside a container, its output led into the artifact.
pub open spec fn mysql_docker_template() -> Seq<PieceView> {
    seq![
        PieceView::Text("docker exec "@),
        PieceView::Slot(Field::Container),
        PieceView::Text(" bash -c \"MYSQL_PWD='"@),
        PieceView::Slot(Field::Password),
        PieceView::Text("' mysqldump -u "@),
        PieceView::Slot(Field::User),
        PieceView::Text(" "@),
        PieceView::Slot(Field::Database),
        PieceView::Text("\" > "@),
        PieceView::Slot(Field::Artifact),
    ]
}

pub(crate) fn mysql_docker_line() -> (r: Vec<Piece>)
    ensures
        line_view(r@) == mysql_docker_template(),
{
    let r: Vec<Piece> = vec![
        Piece::Text("docker exec "),
        Piece::Slot(Field::Container),
        Piece::Text(" bash -c \"MYSQL_PWD='"),
        Piece::Slot(Field::Password),
        Piece::Text("' mysqldump -u "),
        Piece::Slot(Field::User),
        Piece::Text(" "),
        Piece::Slot(Field::Database),
        Piece::Text("\" > "),
        Piece::Slot(Field::Artifact),
    ];
    assert(line_view(r@) =~= mysql_docker_template());
    r
}

/// The fields that the line mentions, each once.
pub(crate) proof fn lemma_mysql_docker_slots(field: Field)
    ensures
        if field == Field::Container || field == Field::Password || field == Field::User
            || field == Field::Database || field == Field::Artifact {
            mentions_once(mysql_docker_template(), field)
        } else {
            mentions_never(mysql_docker_template(), field)
        },
{
    let line = mysql_docker_template();
    assert(line.len() == 10);
    match field {
        Field::Database => {
            lemma_once_at(line, field, 7);
        },
        Field::User => {
            lemma_once_at(line, field, 5);
        },
        Field::Password => {
            lemma_once_at(line, field, 3);
        },
        Field::Container => {
            lemma_once_at(line, field, 1);
        },
        Field::Artifact => {
            lemma_once_at(line, field, 9);
        },
        _ => {},
    }
}

/// A `psql` on a host that reads the artifact into a database.
pub open spec fn postgresql_restore_template() -> Seq<PieceView> {
    seq![
        PieceView::Text("PGPASSWORD=\""@),
        PieceView::Slot(Field::Password),
        PieceView::Text("\" psql -U "@),
        PieceView::Slot(Field::User),
        PieceView::Text(" -h "@),
        PieceView::Slot(Field::Host),
        PieceView::Text(" -p "@),
        PieceView::Slot(Field::Port),
        PieceView::Text(" "@),
        PieceView::Slot(Field::Database),
        PieceView::Text(" < "@),
        PieceView::Slot(Field::Artifact),
    ]
}

pub(crate) fn postgresql_restore_line() -> (r: Vec<Piece>)
    ensures
        line_view(r@) == postgresql_restore_template(),
{
    let r: Vec<Piece> = vec![
        Piece::Text("PGPASSWORD=\""),
        Piece::Slot(Field::Password),
        Piece::Text("\" psql -U "),
        Piece::Slot(Field::User),
        Piece::Text(" -h "),
        Piece::Slot(Field::Host),
        Piece::Text(" -p "),
        Piece::Slot(Field::Port),
        Piece::Text(" "),
        Piece::Slot(Field::Database),
        Piece::Text(" < "),
        Piece::Slot(Field::Artifact),
    ];
    assert(line_view(r@) =~= postgresql_restore_template());
    r
}

/// The fields that the line mentions, each once.
pub(crate) proof fn lemma_postgresql_restore_slots(field: Field)
    ensures
        if field == Field::Password || field == Field::User || field == Field::Host
            || field == Field::Port || field == Field::Database || field == Field::Artifact {
            mentions_once(postgresql_restore_template(), field)
        } else {
            mentions_never(postgresql_restore_template(), field)
        },
{
    let line = postgresql_restore_template();
    assert(line.len() == 12);
    match field {
        Field::Host => {
            lemma_once_at(line, field, 5);
        },
        Field::Port => {
            lemma_once_at(line, field, 7);
        },
        Field::Database => {
            lemma_once_at(line, field, 9);
        },
        Field::User => {
            lemma_once_at(line, field, 3);
        },
        Field::Password => {
            lemma_once_at(line, field, 1);
        },
        Field::Artifact => {
            lemma_once_at(line, field, 11);
        },
        _ => {},
    }
}

/// A `psql` inside a container that reads the artifact into a database.
pub open spec fn postgresql_docker_restore_template() -> Seq<PieceView> {
    seq![
        PieceView::Text("docker exec -i "@),
        PieceView::Slot(Field::Container),
        PieceView::Text(" bash -c \"PGPASSWORD='"@),
        PieceView::Slot(Field::Password),
        PieceView::Text("' psql -U "@),
        PieceView::Slot(Field::User),
        PieceView::Text(" "@),
        PieceView::Slot(Field::Database),
        PieceView::Text("\" < "@),
        PieceView::Slot(Field::Artifact),
    ]
}

pub(crate) fn postgresql_docker_restore_line() -> (r: Vec<Piece>)
    ensures
        line_view(r@) == postgresql_docker_restore_template(),
{
    let r: Vec<Piece> = vec![
        Piece::Text("docker exec -i "),
        Piece::Slot(Field::Container),
        Piece::Text(" bash -c \"PGPASSWORD='"),
        Piece::Slot(Field::Password),
        Piece::Text("' psql -U "),
        Piece::Slot(Field::User),
        Piece::Text(" "),
        Piece::Slot(Field::Database),
        Piece::Text("\" < "),
        Piece::Slot(Field::Artifact),
    ];
    assert(line_view(r@) =~= postgresql_docker_restore_template());
    r
}

/// The fields that the line mentions, each once.
pub(crate) proof fn lemma_postgresql_docker_restore_slots(field: Field)
    ensures
        if field == Field::Container || field == Field::Password || field == Field::User
            || field == Field::Database || field == Field::Artifact {
            mentions_once(postgresql_docker_restore_template(), field)
        } else {
            mentions_never(postgresql_docker_restore_template(), field)
        },
{
    let line = postgresql_docker_restore_template();
    assert(line.len() == 10);
    match field {
        Field::Database => {
            lemma_once_at(line, field, 7);
        },
        Field::User => {
            lemma_once_at(line, field, 5);
        },
        Field::Password => {
            lemma_once_at(line, field, 3);
        },
        Field::Container => {
            lemma_once_at(line, field, 1);
        },
        Field::Artifact => {
            lemma_once_at(line, field, 9);
        },
        _ => {},
    }
}

/// A `mongorestore` of the artifact on a host, with a user name and a
/// password.
pub open spec fn mongodb_login_restore_template() -> Seq<PieceView> {
    seq![
        PieceView::Text("mongorestore --host "@),
        PieceView::Slot(Field::Host),
        PieceView::Text(" --port "@),
        PieceView::Slot(Field::Port),
        PieceView::Text(" --username "@),
        PieceView::Slot(Field::User),
        PieceView::Text(" --password "@),
        PieceView::Slot(Field::Password),
        PieceView::Text(" --authenticationDatabase admin --archive="@),
        PieceView::Slot(Field::Artifact),
        PieceView::Text(" --gzip"@),
    ]
}

pub(crate) fn mongodb_login_restore_line() -> (r: Vec<Piece>)
    ensures
        line_view(r@) == mongodb_login_restore_template(),
{
    let r: Vec<Piece> = vec![
        Piece::Text("mongorestore --host "),
        Piece::Slot(Field::Host),
        Piece::Text(" --port "),
        Piece::Slot(Field::Port),
        Piece::Text(" --username "),
        Piece::Slot(Field::User),
        Piece::Text(" --password "),
        Piece::Slot(Field::Password),
        Piece::Text(" --authenticationDatabase admin --archive="),
        Piece::Slot(Field::Artifact),
        Piece::Text(" --gzip"),
    ];
    assert(line_view(r@) =~= mongodb_login_restore_template());
    r
}

/// The fields that the line mentions, each once.
pub(crate) proof fn lemma_mongodb_login_restore_slots(field: Field)
    ensures
        if field == Field::Host || field == Field::Port || field == Field::User
            || field == Field::Password || field == Field::Artifact {
            mentions_once(mongodb_login_restore_template(), field)
        } else {
            mentions_never(mongodb_login_restore_template(), field)
        },
{
    let line = mongodb_login_restore_template();
    assert(line.len() == 11);
    match field {
        Field::Host => {
            lemma_once_at(line, field, 1);
        },
        Field::Port => {
            lemma_once_at(line, field, 3);
        },
        Field::User => {
            lemma_once_at(line, field, 5);
        },
        Field::Password => {
            lemma_once_at(line, field, 7);
        },
        Field::Artifact => {
            lemma_once_at(line, field, 9);
        },
        _ => {},
    }
}

/// A `mongorestore` of the artifact on a host, with a user name and no
/// password.
pub open spec fn mongodb_user_restore_template() -> Seq<PieceView> {
    seq![
        PieceView::Text("mongorestore --host "@),
        PieceView::Slot(Field::Host),
        PieceView::Text(" --port "@),
        PieceView::Slot(Field::Port),
        PieceView::Text(" --username "@),
        PieceView::Slot(Field::User),
        PieceView::Text(" --authenticationDatabase admin --archive="@),
        PieceView::Slot(Field::Artifact),
        PieceView::Text(" --gzip"@),
    ]
}

pub(crate) fn mongodb_user_restore_line() -> (r: Vec<Piece>)
    ensures
        line_view(r@) == mongodb_user_restore_template(),
{
    let r: Vec<Piece> = vec![
        Piece::Text("mongorestore --host "),
        Piece::Slot(Field::Host),
        Piece::Text(" --port "),
        Piece::Slot(Field::Port),
        Piece::Text(" --username "),
        Piece::Slot(Field::User),
        Piece::Text(" --authenticationDatabase admin --archive="),
        Piece::Slot(Field::Artifact),
        Piece::Text(" --gzip"),
    ];
    assert(line_view(r@) =~= mongodb_user_restore_template());
    r
}

/// The fields that the line mentions, each once.
pub(crate) proof fn lemma_mongodb_user_restore_slots(field: Field)
    ensures
        if field == Field::Host || field == Field::Port || field == Field::User
            || field == Field::Artifact {
            mentions_once(mongodb_user_restore_template(), field)
        } else {
            mentions_never(mongodb_user_restore_template(), field)
        },
{
    let line = mongodb_user_restore_template();
    assert(line.len() == 9);
    match field {
        Field::Host => {
            lemma_once_at(line, field, 1);
        },
        Field::Port => {
            lemma_once_at(line, field, 3);
        },
        Field::User => {
            lemma_once_at(line, field, 5);
        },
        Field::Artifact => {
            lemma_once_at(line, field, 7);
        },
        _ => {},
    }
}

/// A `mongorestore` of the artifact on a host, without credentials.
pub open spec fn mongodb_open_restore_template() -> Seq<PieceView> {
    seq![
        PieceView::Text("mongorestore --host "@),
        PieceView::Slot(Field::Host),
        PieceView::Text(" --port "@),
        PieceView::Slot(Field::Port),
        PieceView::Text(" --archive="@),
        PieceView::Slot(Field::Artifact),
        PieceView::Text(" --gzip"@),
    ]
}

pub(crate) fn mongodb_open_restore_line() -> (r: Vec<Piece>)
    ensures
        line_view(r@) == mongodb_open_restore_template(),
{
    let r: Vec<Piece> = vec![
        Piece::Text("mongorestore --host "),
        Piece::Slot(Field::Host),
        Piece::Text(" --port "),
        Piece::Slot(Field::Port),
        Piece::Text(" --archive="),
        Piece::Slot(Field::Artifact),
        Piece::Text(" --gzip"),
    ];
    assert(line_view(r@) =~= mongodb_open_restore_template());
    r
}

/// The fields that the line mentions, each once.
pub(crate) proof fn lemma_mongodb_open_restore_slots(field: Field)
    ensures
        if field == Field::Host || field == Field::Port || field == Field::Artifact {
            mentions_once(mongodb_open_restore_template(), field)
        } else {
            mentions_never(mongodb_open_restore_template(), field)
        },
{
    let line = mongodb_open_restore_template();
    assert(line.len() == 7);
    match field {
        Field::Host => {
            lemma_once_at(line, field, 1);
        },
        Field::Port => {
            lemma_once_at(line, field, 3);
        },
        Field::Artifact => {
            lemma_once_at(line, field, 5);
        },
        _ => {},
    }
}

/// The copy of the artifact into the container, to the archive inside it.
pub open spec fn mongodb_docker_load_template() -> Seq<PieceView> {
    seq![
        PieceView::Text("docker cp "@),
        PieceView::Slot(Field::Artifact),
        PieceView::Text(" "@),
        PieceView::Slot(Field::Container),
        PieceView::Text(":/backup/backup.gz"@),
    ]
}

pub(crate) fn mongodb_docker_load_line() -> (r: Vec<Piece>)
    ensures
        line_view(r@) == mongodb_docker_load_template(),
{
    let r: Vec<Piece> = vec![
        Piece::Text("docker cp "),
        Piece::Slot(Field::Artifact),
        Piece::Text(" "),
        Piece::Slot(Field::Container),
        Piece::Text(":/backup/backup.gz"),
    ];
    assert(line_view(r@) =~= mongodb_docker_load_template());
    r
}

/// The fields that the line mentions, each once.
pub(crate) proof fn lemma_mongodb_docker_load_slots(field: Field)
    ensures
        if field == Field::Artifact || field == Field::Container {
            mentions_once(mongodb_docker_load_template(), field)
        } else {
            mentions_never(mongodb_docker_load_template(), field)
        },
{
    let line = mongodb_docker_load_template();
    assert(line.len() == 5);
    match field {
        Field::Container => {
            lemma_once_at(line, field, 3);
        },
        Field::Artifact => {
            lemma_once_at(line, field, 1);
        },
        _ => {},
    }
}

/// A `mongorestore` inside a container of the archive inside it, with a user
/// name and a password.
pub open spec fn mongodb_docker_login_restore_template() -> Seq<PieceView> {
    seq![
        PieceView::Text("docker exec "@),
        PieceView::Slot(Field::Container),
        PieceView::Text(" mongorestore --username "@),
        PieceView::Slot(Field::User),
        PieceView::Text(" --password "@),
        PieceView::Slot(Field::Password),
        PieceView::Text(" --authenticationDatabase admin --archive=/backup/backup.gz --gzip"@),
    ]
}

pub(crate) fn mongodb_docker_login_restore_line() -> (r: Vec<Piece>)
    ensures
        line_view(r@) == mongodb_docker_login_restore_template(),
{
    let r: Vec<Piece> = vec![
        Piece::Text("docker exec "),
        Piece::Slot(Field::Container),
        Piece::Text(" mongorestore --username "),
        Piece::Slot(Field::User),
        Piece::Text(" --password "),
        Piece::Slot(Field::Password),
        Piece::Text(" --authenticationDatabase admin --archive=/backup/backup.gz --gzip"),
    ];
    assert(line_view(r@) =~= mongodb_docker_login_restore_template());
    r
}

/// The fields that the line mentions, each once.
pub(crate) proof fn lemma_mongodb_docker_login_restore_slots(field: Field)
    ensures
        if field == Field::Container || field == Field::User || field == Field::Password {
            mentions_once(mongodb_docker_login_restore_template(), field)
        } else {
            mentions_never(mongodb_docker_login_restore_template(), field)
        },
{
    let line = mongodb_docker_login_restore_template();
    assert(line.len() == 7);
    match field {
        Field::User => {
            lemma_once_at(line, field, 3);
        },
        Field::Password => {
            lemma_once_at(line, field, 5);
        },
        Field::Container => {
            lemma_once_at(line, field, 1);
        },
        _ => {},
    }
}

/// A `mongorestore` inside a container of the archive inside it, with a user
/// name and no password.
pub open spec fn mongodb_docker_user_restore_template() -> Seq<PieceView> {
    seq![
        PieceView::Text("docker exec "@),
        PieceView::Slot(Field::Container),
        PieceView::Text(" mongorestore --username "@),
        PieceView::Slot(Field::User),
        PieceView::Text(" --authenticationDatabase admin --archive=/backup/backup.gz --gzip"@),
    ]
}

pub(crate) fn mongodb_docker_user_restore_line() -> (r: Vec<Piece>)
    ensures
        line_view(r@) == mongodb_docker_user_restore_template(),
{
    let r: Vec<Piece> = vec![
        Piece::Text("docker exec "),
        Piece::Slot(Field::Container),
        Piece::Text(" mongorestore --username "),
        Piece::Slot(Field::User),
        Piece::Text(" --authenticationDatabase admin --archive=/backup/backup.gz --gzip"),
    ];
    assert(line_view(r@) =~= mongodb_docker_user_restore_template());
    r
}

/// The fields that the line mentions, each once.
pub(crate) proof fn lemma_mongodb_docker_user_restore_slots(field: Field)
    ensures
        if field == Field::Container || field == Field::User {
            mentions_once(mongodb_docker_user_restore_template(), field)
        } else {
            mentions_never(mongodb_docker_user_restore_template(), field)
        },
{
    let line = mongodb_docker_user_restore_template();
    assert(line.len() == 5);
    match field {
        Field::User => {
            lemma_once_at(line, field, 3);
        },
        Field::Container => {
            lemma_once_at(line, field, 1);
        },
        _ => {},
    }
}

/// A `mongorestore` inside a container of the archive inside it, without
/// credentials.
pub open spec fn mongodb_docker_open_restore_template() -> Seq<PieceView> {
    seq![
        PieceView::Text("docker exec "@),
        PieceView::Slot(Field::Container),
        PieceView::Text(" mongorestore --archive=/backup/backup.gz --gzip"@),
    ]
}

pub(crate) fn mongodb_docker_open_restore_line() -> (r: Vec<Piece>)
    ensures
        line_view(r@) == mongodb_docker_open_restore_template(),
{
    let r: Vec<Piece> = vec![
        Piece::Text("docker exec "),
        Piece::Slot(Field::Container),
        Piece::Text(" mongorestore --archive=/backup/backup.gz --gzip"),
    ];
    assert(line_view(r@) =~= mongodb_docker_open_restore_template());
    r
}

/// The fields that the line mentions, each once.
pub(crate) proof fn lemma_mongodb_docker_open_restore_slots(field: Field)
    ensures
        if field == Field::Container {
            mentions_once(mongodb_docker_open_restore_template(), field)
        } else {
            mentions_never(mongodb_docker_open_restore_template(), field)
        },
{
    let line = mongodb_docker_open_restore_template();
    assert(line.len() == 3);
    match field {
        Field::Container => {
            lemma_once_at(line, field, 1);
        },
        _ => {},
    }
}

/// The artifact unpacked by `tar` into the directory.
pub open spec fn folder_restore_template() -> Seq<PieceView> {
    seq![
        PieceView::Text("tar -xzvf "@),
        PieceView::Slot(Field::Artifact),
        PieceView::Text(" -C "@),
        PieceView::Slot(Field::Source),
    ]
}

pub(crate) fn folder_restore_line() -> (r: Vec<Piece>)
    ensures
        line_view(r@) == folder_restore_template(),
{
    let r: Vec<Piece> = vec![
        Piece::Text("tar -xzvf "),
        Piece::Slot(Field::Artifact),
        Piece::Text(" -C "),
        Piece::Slot(Field::Source),
    ];
    assert(line_view(r@) =~= folder_restore_template());
    r
}

/// The fields that the line mentions, each once.
pub(crate) proof fn lemma_folder_restore_slots(field: Field)
    ensures
        if field == Field::Artifact || field == Field::Source {
            mentions_once(folder_restore_template(), field)
        } else {
            mentions_never(folder_restore_template(), field)
        },
{
    let line = folder_restore_template();
    assert(line.len() == 4);
    match field {
        Field::Source => {
            lemma_once_at(line, field, 3);
        },
        Field::Artifact => {
            lemma_once_at(line, field, 1);
        },
        _ => {},
    }
}

/// A `mysql` on a host that reads the artifact into a database.
pub open spec fn mysql_restore_template() -> Seq<PieceView> {
    seq![
        PieceView::Text("MYSQL_PWD="@),
        PieceView::Slot(Field::Password),
        PieceView::Text(" mysql -u "@),
        PieceView::Slot(Field::User),
        PieceView::Text(" -h "@),
        PieceView::Slot(Field::Host),
        PieceView::Text(" -P "@),
        PieceView::Slot(Field::Port),
        PieceView::Text(" "@),
        PieceView::Slot(Field::Database),
        PieceView::Text(" < "@),
        PieceView::Slot(Field::Artifact),
    ]
}

pub(crate) fn mysql_restore_line() -> (r: Vec<Piece>)
    ensures
        line_view(r@) == mysql_restore_template(),
{
    let r: Vec<Piece> = vec![
        Piece::Text("MYSQL_PWD="),
        Piece::Slot(Field::Password),
        Piece::Text(" mysql -u "),
        Piece::Slot(Field::User),
        Piece::Text(" -h "),
        Piece::Slot(Field::Host),
        Piece::Text(" -P "),
        Piece::Slot(Field::Port),
        Piece::Text(" "),
        Piece::Slot(Field::Database),
        Piece::Text(" < "),
        Piece::Slot(Field::Artifact),
    ];
    assert(line_view(r@) =~= mysql_restore_template());
    r
}

/// The fields that the line mentions, each once.
pub(crate) proof fn lemma_mysql_restore_slots(field: Field)
    ensures
        if field == Field::Password || field == Field::User || field == Field::Host
            || field == Field::Port || field == Field::Database || field == Field::Artifact {
            mentions_once(mysql_restore_template(), field)
        } else {
            mentions_never(mysql_restore_template(), field)
        },
{
    let line = mysql_restore_template();
    assert(line.len() == 12);
    match field {
        Field::Host => {
            lemma_once_at(line, field, 5);
        },
        Field::Port => {
            lemma_once_at(line, field, 7);
        },
        Field::Database => {
            lemma_once_at(line, field, 9);
        },
        Field::User => {
            lemma_once_at(line, field, 3);
        },
        Field::Password => {
            lemma_once_at(line, field, 1);
        },
        Field::Artifact => {
            lemma_once_at(line, field, 11);
        },
        _ => {},
    }
}

/// A `mysql` inside a container that reads the artifact into a database.
pub open spec fn mysql_docker_restore_template() -> Seq<PieceView> {
    seq![
        PieceView::Text("docker exec -i "@),
        PieceView::Slot(Field::Container),
        PieceView::Text(" bash -c \"MYSQL_PWD='"@),
        PieceView::Slot(Field::Password),
        PieceView::Text("' mysql -u "@),
        PieceView::Slot(Field::User),
        PieceView::Text(" "@),
        PieceView::Slot(Field::Database),
        PieceView::Text("\" < "@),
        PieceView::Slot(Field::Artifact),
    ]
}

pub(crate) fn mysql_docker_restore_line() -> (r: Vec<Piece>)
    ensures
        line_view(r@) == mysql_docker_restore_template(),
{
    let r: Vec<Piece> = vec![
        Piece::Text("docker exec -i "),
        Piece::Slot(Field::Container),
        Piece::Text(" bash -c \"MYSQL_PWD='"),
        Piece::Slot(Field::Password),
        Piece::Text("' mysql -u "),
        Piece::Slot(Field::User),
        Piece::Text(" "),
        Piece::Slot(Field::Database),
        Piece::Text("\" < "),
        Piece::Slot(Field::Artifact),
    ];
    assert(line_view(r@) =~= mysql_docker_restore_template());
    r
}

/// The fields that the line mentions, each once.
pub(crate) proof fn lemma_mysql_docker_restore_slots(field: Field)
    ensures
        if field == Field::Container || field == Field::Password || field == Field::User
            || field == Field::Database || field == Field::Artifact {
            mentions_once(mysql_docker_restore_template(), field)
        } else {
            mentions_never(mysql_docker_restore_template(), field)
        },
{
    let line = mysql_docker_restore_template();
    assert(line.len() == 10);
    match field {
        Field::Database => {
            lemma_once_at(line, field, 7);
        },
        Field::User => {
            lemma_once_at(line, field, 5);
        },
        Field::Password => {
            lemma_once_at(line, field, 3);
        },
        Field::Container => {
            lemma_once_at(line, field, 1);
        },
        Field::Artifact => {
            lemma_once_at(line, field, 9);
        },
        _ => {},
    }
}

} // verus!
