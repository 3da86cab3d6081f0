//! Backup targets, the commands that back them up and restore them, and the
//! names of their artifacts.

use crate::structures::command_line::{
    folder_line, folder_restore_line, folder_restore_template, folder_template,
    lemma_folder_restore_slots, lemma_folder_slots, lemma_mongodb_docker_copy_slots,
    lemma_mongodb_docker_load_slots, lemma_mongodb_docker_login_restore_slots,
    lemma_mongodb_docker_login_slots, lemma_mongodb_docker_open_restore_slots,
    lemma_mongodb_docker_open_slots, lemma_mongodb_docker_user_restore_slots,
    lemma_mongodb_docker_user_slots, lemma_mongodb_login_restore_slots, lemma_mongodb_login_slots,
    lemma_mongodb_open_restore_slots, lemma_mongodb_open_slots, lemma_mongodb_user_restore_slots,
    lemma_mongodb_user_slots, lemma_mysql_docker_restore_slots, lemma_mysql_docker_slots,
    lemma_mysql_restore_slots, lemma_mysql_slots, lemma_once_excludes_never,
    lemma_postgresql_docker_restore_slots, lemma_postgresql_docker_slots,
    lemma_postgresql_restore_slots, lemma_postgresql_slots, line_view, lines_view, mentions_never,
    mentions_once, mongodb_docker_copy_line, mongodb_docker_copy_template,
    mongodb_docker_load_line, mongodb_docker_load_template, mongodb_docker_login_line,
    mongodb_docker_login_restore_line, mongodb_docker_login_restore_template,
    mongodb_docker_login_template, mongodb_docker_open_line, mongodb_docker_open_restore_line,
    mongodb_docker_open_restore_template, mongodb_docker_open_template, mongodb_docker_user_line,
    mongodb_docker_user_restore_line, mongodb_docker_user_restore_template,
    mongodb_docker_user_template, mongodb_login_line, mongodb_login_restore_line,
    mongodb_login_restore_template, mongodb_login_template, mongodb_open_line,
    mongodb_open_restore_line, mongodb_open_restore_template, mongodb_open_template,
    mongodb_user_line, mongodb_user_restore_line, mongodb_user_restore_template,
    mongodb_user_template, mysql_docker_line, mysql_docker_restore_line,
    mysql_docker_restore_template, mysql_docker_template, mysql_line, mysql_restore_line,
    mysql_restore_template, mysql_template, postgresql_docker_line, postgresql_docker_restore_line,
    postgresql_docker_restore_template, postgresql_docker_template, postgresql_line,
    postgresql_restore_line, postgresql_restore_template, postgresql_template, Field, Piece,
    PieceView,
};
use crate::utils::text::{
    begins_with, decimal, decimal_text, law_shell_reads_quoted_text_back, optional_text,
    shell_quoted, shell_quoted_text, shell_reads, texts,
};
use vstd::prelude::*;
use vstd::string::*;

verus! {

/// How to reach the data source of one element and dump it.
#[derive(Clone, Debug, PartialEq, Eq)]
#[allow(inconsistent_fields)]
pub enum BackupParams {
    Postgresql {
        db_host: Option<String>,
        db_port: u16,
        db_name: String,
        db_user: String,
        db_password: String,
    },
    PostgresqlDocker {
        docker_container: String,
        db_name: String,
        db_user: String,
        db_password: String,
    },
    Mongodb {
        db_host: Option<String>,
        db_port: u16,
        db_user: Option<String>,
        db_password: Option<String>,
    },
    MongodbDocker {
        docker_container: String,
        db_user: Option<String>,
        db_password: Option<String>,
    },
    Folder {
        target_path: String,
    },
    MySQL {
        db_host: Option<String>,
        db_port: u16,
        db_name: String,
        db_user: String,
        db_password: String,
    },
    MySQLDocker {
        docker_container: String,
        db_name: String,
        db_user: String,
        db_password: String,
    },
}

/// A `BackupParams` with its texts as sequences of characters.
#[allow(inconsistent_fields)]
pub enum BackupParamsView {
    Postgresql {
        db_host: Option<Seq<char>>,
        db_port: u16,
        db_name: Seq<char>,
        db_user: Seq<char>,
        db_password: Seq<char>,
    },
    PostgresqlDocker {
        docker_container: Seq<char>,
        db_name: Seq<char>,
        db_user: Seq<char>,
        db_password: Seq<char>,
    },
    Mongodb {
        db_host: Option<Seq<char>>,
        db_port: u16,
        db_user: Option<Seq<char>>,
        db_password: Option<Seq<char>>,
    },
    MongodbDocker {
        docker_container: Seq<char>,
        db_user: Option<Seq<char>>,
        db_password: Option<Seq<char>>,
    },
    Folder { target_path: Seq<char> },
    MySQL {
        db_host: Option<Seq<char>>,
        db_port: u16,
        db_name: Seq<char>,
        db_user: Seq<char>,
        db_password: Seq<char>,
    },
    MySQLDocker {
        docker_container: Seq<char>,
        db_name: Seq<char>,
        db_user: Seq<char>,
        db_password: Seq<char>,
    },
}

impl View for BackupParams {
    type V = BackupParamsView;

    open spec fn view(&self) -> BackupParamsView {
        match *self {
            BackupParams::Postgresql {
                db_host,
                db_port,
                db_name,
                db_user,
                db_password,
            } => BackupParamsView::Postgresql {
                db_host: optional_text(db_host),
                db_port,
                db_name: db_name@,
                db_user: db_user@,
                db_password: db_password@,
            },
            BackupParams::PostgresqlDocker {
                docker_container,
                db_name,
                db_user,
                db_password,
            } => BackupParamsView::PostgresqlDocker {
                docker_container: docker_container@,
                db_name: db_name@,
                db_user: db_user@,
                db_password: db_password@,
            },
            BackupParams::Mongodb {
                db_host,
                db_port,
                db_user,
                db_password,
            } => BackupParamsView::Mongodb {
                db_host: optional_text(db_host),
                db_port,
                db_user: optional_text(db_user),
                db_password: optional_text(db_password),
            },
            BackupParams::MongodbDocker {
                docker_container,
                db_user,
                db_password,
            } => BackupParamsView::MongodbDocker {
                docker_container: docker_container@,
                db_user: optional_text(db_user),
                db_password: optional_text(db_password),
            },
            BackupParams::Folder { target_path } => BackupParamsView::Folder {
                target_path: target_path@,
            },
            BackupParams::MySQL {
                db_host,
                db_port,
                db_name,
                db_user,
                db_password,
            } => BackupParamsView::MySQL {
                db_host: optional_text(db_host),
                db_port,
                db_name: db_name@,
                db_user: db_user@,
                db_password: db_password@,
            },
            BackupParams::MySQLDocker {
                docker_container,
                db_name,
                db_user,
                db_password,
            } => BackupParamsView::MySQLDocker {
                docker_container: docker_container@,
                db_name: db_name@,
                db_user: db_user@,
                db_password: db_password@,
            },
        }
    }
}

/// The commands that back one element up, in the order in which they run,
/// and the path of the artifact that the last of them leaves behind.
#[derive(Clone, Debug, PartialEq, Eq)]
pub struct BackupPlan {
    pub commands: Vec<String>,
    pub artifact: String,
}

/// A `BackupPlan` with its texts as sequences of characters.
pub struct BackupPlanView {
    pub commands: Seq<Seq<char>>,
    pub artifact: Seq<char>,
}

impl View for BackupPlan {
    type V = BackupPlanView;

    open spec fn view(&self) -> BackupPlanView {
        BackupPlanView {
            commands: texts(self.commands@),
            artifact: self.artifact@,
        }
    }
}

/// The host to reach: the one given, else the local machine.
pub open spec fn host_text(host: Option<Seq<char>>) -> Seq<char> {
    match host {
        Some(name) => name,
        None => "localhost"@,
    }
}

fn host_or_local(host: &Option<String>) -> (r: String)
    ensures
        r@ == host_text(optional_text(*host)),
{
    match host {
        Some(name) => name.clone(),
        None => String::from_str("localhost"),
    }
}

/// The line calls `docker`: its fixed text begins with that word.
pub open spec fn calls_docker(line: Seq<PieceView>) -> bool {
    line.len() > 0 && match line[0] {
        PieceView::Text(text) => begins_with(text, "docker "@),
        PieceView::Slot(_) => false,
    }
}

impl BackupParamsView {
    /// The data source runs in a container.
    pub open spec fn in_container(self) -> bool {
        self is PostgresqlDocker || self is MongodbDocker || self is MySQLDocker
    }

    /// The fields that the target has a value for, and the artifact. Of a
    /// document database the user name is its own where one is given, and the
    /// password where a user name and a password are given.
    pub open spec fn owns(self, field: Field) -> bool {
        let login = field == Field::User || field == Field::Password;
        match self {
            BackupParamsView::Postgresql { .. } | BackupParamsView::MySQL { .. } => {
                login || field == Field::Host || field == Field::Port || field == Field::Database
                    || field == Field::Artifact
            },
            BackupParamsView::PostgresqlDocker { .. } | BackupParamsView::MySQLDocker { .. } => {
                login || field == Field::Container || field == Field::Database
                    || field == Field::Artifact
            },
            BackupParamsView::Mongodb { db_user, db_password, .. } => {
                (field == Field::User && db_user is Some) || (field == Field::Password
                    && db_user is Some && db_password is Some) || field == Field::Host
                    || field == Field::Port || field == Field::Artifact
            },
            BackupParamsView::MongodbDocker { db_user, db_password, .. } => {
                (field == Field::User && db_user is Some) || (field == Field::Password
                    && db_user is Some && db_password is Some) || field == Field::Container
                    || field == Field::Artifact
            },
            BackupParamsView::Folder { .. } => field == Field::Source || field == Field::Artifact,
        }
    }

    /// The command lines of the target, in the order in which they run. A
    /// document database in a container takes two: the dump inside the
    /// container, then the copy out of it. A document database is dumped with
    /// the user name where one is given, and with the password where both are
    /// given; a password without a user name is passed over.
    pub open spec fn protocol(self) -> Seq<Seq<PieceView>> {
        match self {
            BackupParamsView::Postgresql { .. } => seq![postgresql_template()],
            BackupParamsView::PostgresqlDocker { .. } => seq![postgresql_docker_template()],
            BackupParamsView::Mongodb { db_user, db_password, .. } => if db_user is None {
                seq![mongodb_open_template()]
            } else if db_password is None {
                seq![mongodb_user_template()]
            } else {
                seq![mongodb_login_template()]
            },
            BackupParamsView::MongodbDocker { db_user, db_password, .. } => if db_user is None {
                seq![mongodb_docker_open_template(), mongodb_docker_copy_template()]
            } else if db_password is None {
                seq![mongodb_docker_user_template(), mongodb_docker_copy_template()]
            } else {
                seq![mongodb_docker_login_template(), mongodb_docker_copy_template()]
            },
            BackupParamsView::Folder { .. } => seq![folder_template()],
            BackupParamsView::MySQL { .. } => seq![mysql_template()],
            BackupParamsView::MySQLDocker { .. } => seq![mysql_docker_template()],
        }
    }

    /// The command lines that restore the target from an artifact, in the
    /// order in which they run: each undoes what the backup does. A document
    /// database in a container takes two: the copy into the container, then
    /// the restore inside it.
    pub open spec fn restore_protocol(self) -> Seq<Seq<PieceView>> {
        match self {
            BackupParamsView::Postgresql { .. } => seq![postgresql_restore_template()],
            BackupParamsView::PostgresqlDocker { .. } => seq![postgresql_docker_restore_template()],
            BackupParamsView::Mongodb { db_user, db_password, .. } => if db_user is None {
                seq![mongodb_open_restore_template()]
            } else if db_password is None {
                seq![mongodb_user_restore_template()]
            } else {
                seq![mongodb_login_restore_template()]
            },
            BackupParamsView::MongodbDocker { db_user, db_password, .. } => if db_user is None {
                seq![mongodb_docker_load_template(), mongodb_docker_open_restore_template()]
            } else if db_password is None {
                seq![mongodb_docker_load_template(), mongodb_docker_user_restore_template()]
            } else {
                seq![mongodb_docker_load_template(), mongodb_docker_login_restore_template()]
            },
            BackupParamsView::Folder { .. } => seq![folder_restore_template()],
            BackupParamsView::MySQL { .. } => seq![mysql_restore_template()],
            BackupParamsView::MySQLDocker { .. } => seq![mysql_docker_restore_template()],
        }
    }

    /// The text that stands for `field` in a command line of the target, where
    /// the artifact lies at `artifact`. A field that is not the target's own
    /// has the empty text. The password of a document database is written as
    /// one quoted word, which the shell hands on unchanged.
    pub open spec fn field_text(self, artifact: Seq<char>, field: Field) -> Seq<char> {
        match field {
            Field::Artifact => artifact,
            Field::Host => match self {
                BackupParamsView::Postgresql { db_host, .. } => host_text(db_host),
                BackupParamsView::Mongodb { db_host, .. } => host_text(db_host),
                BackupParamsView::MySQL { db_host, .. } => host_text(db_host),
                _ => Seq::empty(),
            },
            Field::Port => match self {
                BackupParamsView::Postgresql { db_port, .. } => decimal_text(db_port as nat),
                BackupParamsView::Mongodb { db_port, .. } => decimal_text(db_port as nat),
                BackupParamsView::MySQL { db_port, .. } => decimal_text(db_port as nat),
                _ => Seq::empty(),
            },
            Field::Database => match self {
                BackupParamsView::Postgresql { db_name, .. } => db_name,
                BackupParamsView::PostgresqlDocker { db_name, .. } => db_name,
                BackupParamsView::MySQL { db_name, .. } => db_name,
                BackupParamsView::MySQLDocker { db_name, .. } => db_name,
                _ => Seq::empty(),
            },
            Field::User => match self {
                BackupParamsView::Postgresql { db_user, .. } => db_user,
                BackupParamsView::PostgresqlDocker { db_user, .. } => db_user,
                BackupParamsView::MySQL { db_user, .. } => db_user,
                BackupParamsView::MySQLDocker { db_user, .. } => db_user,
                BackupParamsView::Mongodb { db_user: Some(user), .. } => user,
                BackupParamsView::MongodbDocker { db_user: Some(user), .. } => user,
                _ => Seq::empty(),
            },
            Field::Password => match self {
                BackupParamsView::Postgresql { db_password, .. } => db_password,
                BackupParamsView::PostgresqlDocker { db_password, .. } => db_password,
                BackupParamsView::MySQL { db_password, .. } => db_password,
                BackupParamsView::MySQLDocker { db_password, .. } => db_password,
                BackupParamsView::Mongodb {
                    db_user: Some(_),
                    db_password: Some(password),
                    ..
                } => shell_quoted_text(password),
                BackupParamsView::MongodbDocker {
                    db_user: Some(_),
                    db_password: Some(password),
                    ..
                } => shell_quoted_text(password),
                _ => Seq::empty(),
            },
            Field::Container => match self {
                BackupParamsView::PostgresqlDocker { docker_container, .. } => docker_container,
                BackupParamsView::MongodbDocker { docker_container, .. } => docker_container,
                BackupParamsView::MySQLDocker { docker_container, .. } => docker_container,
                _ => Seq::empty(),
            },
            Field::Source => match self {
                BackupParamsView::Folder { target_path } => target_path,
                _ => Seq::empty(),
            },
        }
    }

    /// The text of one piece of a command line.
    pub open spec fn piece_text(self, artifact: Seq<char>, piece: PieceView) -> Seq<char> {
        match piece {
            PieceView::Text(text) => text,
            PieceView::Slot(field) => self.field_text(artifact, field),
        }
    }

    /// The command line that `line` spells: the texts of its pieces, one after
    /// the other.
    pub open spec fn render(self, artifact: Seq<char>, line: Seq<PieceView>) -> Seq<char>
        decreases line.len(),
    {
        if line.len() == 0 {
            Seq::empty()
        } else {
            self.render(artifact, line.drop_last()) + self.piece_text(artifact, line.last())
        }
    }

    /// The command lines that `lines` spell, in order.
    pub open spec fn render_all(self, artifact: Seq<char>, lines: Seq<Seq<PieceView>>) -> Seq<
        Seq<char>,
    > {
        Seq::new(lines.len(), |i: int| self.render(artifact, lines[i]))
    }

    /// The extension of the artifact, with its dot.
    pub open spec fn extension(self) -> Seq<char> {
        match self {
            BackupParamsView::Postgresql { .. } | BackupParamsView::PostgresqlDocker { .. }
            | BackupParamsView::MySQL { .. } | BackupParamsView::MySQLDocker { .. } => ".sql"@,
            BackupParamsView::Mongodb { .. } | BackupParamsView::MongodbDocker { .. } => ".gz"@,
            BackupParamsView::Folder { .. } => ".tar.gz"@,
        }
    }

    /// The artifact's name: the title, a hyphen, the time stamp and the
    /// extension.
    pub open spec fn file_name(self, title: Seq<char>, stamp: Seq<char>) -> Seq<char> {
        title + "-"@ + stamp + self.extension()
    }

    /// The artifact's path: its name in `dir`.
    pub open spec fn artifact_path(self, title: Seq<char>, stamp: Seq<char>, dir: Seq<char>) -> Seq<
        char,
    > {
        dir + "/"@ + self.file_name(title, stamp)
    }

    /// The plan that backs the target up as element `title` at time `stamp`
    /// into the staging directory `dir`.
    pub open spec fn plan(
        self,
        title: Seq<char>,
        stamp: Seq<char>,
        dir: Seq<char>,
    ) -> BackupPlanView {
        let artifact = self.artifact_path(title, stamp, dir);
        BackupPlanView { commands: self.render_all(artifact, self.protocol()), artifact }
    }

    /// The commands that restore the target from the artifact at `artifact`.
    pub open spec fn restore_commands(self, artifact: Seq<char>) -> Seq<Seq<char>> {
        self.render_all(artifact, self.restore_protocol())
    }
}

impl BackupParams {
    fn lines(&self) -> (r: Vec<Vec<Piece>>)
        ensures
            lines_view(r@) == self@.protocol(),
    {
        let r: Vec<Vec<Piece>> = match self {
            BackupParams::Postgresql { .. } => vec![postgresql_line()],
            BackupParams::PostgresqlDocker { .. } => vec![postgresql_docker_line()],
            BackupParams::Mongodb { db_user, db_password, .. } => if db_user.is_none() {
                vec![mongodb_open_line()]
            } else if db_password.is_none() {
                vec![mongodb_user_line()]
            } else {
                vec![mongodb_login_line()]
            },
            BackupParams::MongodbDocker { db_user, db_password, .. } => if db_user.is_none() {
                vec![mongodb_docker_open_line(), mongodb_docker_copy_line()]
            } else if db_password.is_none() {
                vec![mongodb_docker_user_line(), mongodb_docker_copy_line()]
            } else {
                vec![mongodb_docker_login_line(), mongodb_docker_copy_line()]
            },
            BackupParams::Folder { .. } => vec![folder_line()],
            BackupParams::MySQL { .. } => vec![mysql_line()],
            BackupParams::MySQLDocker { .. } => vec![mysql_docker_line()],
        };
        assert(lines_view(r@) =~= self@.protocol());
        r
    }

    fn restore_lines(&self) -> (r: Vec<Vec<Piece>>)
        ensures
            lines_view(r@) == self@.restore_protocol(),
    {
        let r: Vec<Vec<Piece>> = match self {
            BackupParams::Postgresql { .. } => vec![postgresql_restore_line()],
            BackupParams::PostgresqlDocker { .. } => vec![postgresql_docker_restore_line()],
            BackupParams::Mongodb { db_user, db_password, .. } => if db_user.is_none() {
                vec![mongodb_open_restore_line()]
            } else if db_password.is_none() {
                vec![mongodb_user_restore_line()]
            } else {
                vec![mongodb_login_restore_line()]
            },
            BackupParams::MongodbDocker { db_user, db_password, .. } => if db_user.is_none() {
                vec![mongodb_docker_load_line(), mongodb_docker_open_restore_line()]
            } else if db_password.is_none() {
                vec![mongodb_docker_load_line(), mongodb_docker_user_restore_line()]
            } else {
                vec![mongodb_docker_load_line(), mongodb_docker_login_restore_line()]
            },
            BackupParams::Folder { .. } => vec![folder_restore_line()],
            BackupParams::MySQL { .. } => vec![mysql_restore_line()],
            BackupParams::MySQLDocker { .. } => vec![mysql_docker_restore_line()],
        };
        assert(lines_view(r@) =~= self@.restore_protocol());
        r
    }

    fn field_value(&self, artifact: &str, field: Field) -> (r: String)
        ensures
            r@ == self@.field_text(artifact@, field),
    {
        match field {
            Field::Artifact => String::from_str(artifact),
            Field::Host => match self {
                BackupParams::Postgresql { db_host, .. } => host_or_local(db_host),
                BackupParams::Mongodb { db_host, .. } => host_or_local(db_host),
                BackupParams::MySQL { db_host, .. } => host_or_local(db_host),
                _ => String::new(),
            },
            Field::Port => match self {
                BackupParams::Postgresql { db_port, .. } => decimal(*db_port as u64),
                BackupParams::Mongodb { db_port, .. } => decimal(*db_port as u64),
                BackupParams::MySQL { db_port, .. } => decimal(*db_port as u64),
                _ => String::new(),
            },
            Field::Database => match self {
                BackupParams::Postgresql { db_name, .. } => db_name.clone(),
                BackupParams::PostgresqlDocker { db_name, .. } => db_name.clone(),
                BackupParams::MySQL { db_name, .. } => db_name.clone(),
                BackupParams::MySQLDocker { db_name, .. } => db_name.clone(),
                _ => String::new(),
            },
            Field::User => match self {
                BackupParams::Postgresql { db_user, .. } => db_user.clone(),
                BackupParams::PostgresqlDocker { db_user, .. } => db_user.clone(),
                BackupParams::MySQL { db_user, .. } => db_user.clone(),
                BackupParams::MySQLDocker { db_user, .. } => db_user.clone(),
                BackupParams::Mongodb { db_user: Some(user), .. } => user.clone(),
                BackupParams::MongodbDocker { db_user: Some(user), .. } => user.clone(),
                _ => String::new(),
            },
            Field::Password => match self {
                BackupParams::Postgresql { db_password, .. } => db_password.clone(),
                BackupParams::PostgresqlDocker { db_password, .. } => db_password.clone(),
                BackupParams::MySQL { db_password, .. } => db_password.clone(),
                BackupParams::MySQLDocker { db_password, .. } => db_password.clone(),
                BackupParams::Mongodb {
                    db_user: Some(_),
                    db_password: Some(password),
                    ..
                } => shell_quoted(password.as_str()),
                BackupParams::MongodbDocker {
                    db_user: Some(_),
                    db_password: Some(password),
                    ..
                } => shell_quoted(password.as_str()),
                _ => String::new(),
            },
            Field::Container => match self {
                BackupParams::PostgresqlDocker { docker_container, .. } => docker_container.clone(),
                BackupParams::MongodbDocker { docker_container, .. } => docker_container.clone(),
                BackupParams::MySQLDocker { docker_container, .. } => docker_container.clone(),
                _ => String::new(),
            },
            Field::Source => match self {
                BackupParams::Folder { target_path } => target_path.clone(),
                _ => String::new(),
            },
        }
    }

    fn render_line(&self, artifact: &str, line: &Vec<Piece>) -> (r: String)
        ensures
            r@ == self@.render(artifact@, line_view(line@)),
    {
        let ghost whole = line_view(line@);
        let mut out: String = String::new();
        let mut i: usize = 0;
        while i < line.len()
            invariant
                i <= line.len(),
                whole == line_view(line@),
                out@ == self@.render(artifact@, whole.take(i as int)),
            decreases line.len() - i,
        {
            match line[i] {
                Piece::Text(text) => {
                    out.append(text);
                },
                Piece::Slot(field) => {
                    let value: String = self.field_value(artifact, field);
                    out.append(value.as_str());
                },
            }
            proof {
                assert(whole.take(i + 1).drop_last() =~= whole.take(i as int));
                assert(whole.take(i + 1).last() == line@[i as int]@);
            }
            i += 1;
        }
        proof {
            assert(whole.take(i as int) =~= whole);
        }
        out
    }

    fn artifact_extension(&self) -> (r: &'static str)
        ensures
            r@ == self@.extension(),
    {
        match self {
            BackupParams::Postgresql { .. } => ".sql",
            BackupParams::PostgresqlDocker { .. } => ".sql",
            BackupParams::MySQL { .. } => ".sql",
            BackupParams::MySQLDocker { .. } => ".sql",
            BackupParams::Mongodb { .. } => ".gz",
            BackupParams::MongodbDocker { .. } => ".gz",
            BackupParams::Folder { .. } => ".tar.gz",
        }
    }

    fn render_lines(&self, artifact: &str, lines: &Vec<Vec<Piece>>) -> (r: Vec<String>)
        ensures
            texts(r@) == self@.render_all(artifact@, lines_view(lines@)),
    {
        let mut commands: Vec<String> = Vec::new();
        let mut i: usize = 0;
        while i < lines.len()
            invariant
                i <= lines.len(),
                commands@.len() == i,
                forall|k: int|
                    0 <= k < i ==> (#[trigger] commands@[k])@ == self@.render(
                        artifact@,
                        lines_view(lines@)[k],
                    ),
            decreases lines.len() - i,
        {
            let command: String = self.render_line(artifact, &lines[i]);
            commands.push(command);
            i += 1;
        }
        proof {
            assert(texts(commands@) =~= self@.render_all(artifact@, lines_view(lines@)));
        }
        commands
    }

    /// Builds the commands that back the target up as element `title` at time
    /// `stamp`, and the path of the artifact in the staging directory `dir`.
    /// Nothing is run: the result is a function of the arguments.
    pub fn command_for(&self, title: &str, stamp: &str, dir: &str) -> (plan: BackupPlan)
        ensures
            plan@ == self@.plan(title@, stamp@, dir@),
    {
        let mut artifact: String = String::from_str(dir);
        artifact.append("/");
        artifact.append(title);
        artifact.append("-");
        artifact.append(stamp);
        artifact.append(self.artifact_extension());
        proof {
            assert(artifact@ =~= self@.artifact_path(title@, stamp@, dir@));
        }
        let lines: Vec<Vec<Piece>> = self.lines();
        let commands: Vec<String> = self.render_lines(artifact.as_str(), &lines);
        BackupPlan { commands, artifact }
    }

    /// Builds the commands that restore the target from the artifact at
    /// `artifact`. Nothing is run.
    pub fn restore_command_for(&self, artifact: &str) -> (commands: Vec<String>)
        ensures
            texts(commands@) == self@.restore_commands(artifact@),
    {
        let lines: Vec<Vec<Piece>> = self.restore_lines();
        self.render_lines(artifact, &lines)
    }
}

/// A command line mentions a field of the target's own at one place, and a
/// field that is not the target's own nowhere: each line of the protocol
/// holds every field at most once, and a field is the target's own exactly
/// when some line holds it. All targets but the document database in a
/// container have a single line, which then holds each of their fields once.
pub proof fn law_commands_mention_own_fields_once(target: BackupParamsView, field: Field)
    ensures
        forall|i: int|
            0 <= i < target.protocol().len() ==> mentions_once(
                #[trigger] target.protocol()[i],
                field,
            ) || mentions_never(target.protocol()[i], field),
        target.owns(field) <==> exists|i: int|
            0 <= i < target.protocol().len() && mentions_once(
                #[trigger] target.protocol()[i],
                field,
            ),
        target.protocol().len() == 1 || (target is MongodbDocker && target.protocol().len() == 2),
{
    lemma_postgresql_slots(field);
    lemma_postgresql_docker_slots(field);
    lemma_mongodb_login_slots(field);
    lemma_mongodb_user_slots(field);
    lemma_mongodb_docker_user_slots(field);
    lemma_mongodb_open_slots(field);
    lemma_mongodb_docker_login_slots(field);
    lemma_mongodb_docker_open_slots(field);
    lemma_mongodb_docker_copy_slots(field);
    lemma_folder_slots(field);
    lemma_mysql_slots(field);
    lemma_mysql_docker_slots(field);
    let lines = target.protocol();
    assert(mentions_once(lines[0], field) || mentions_never(lines[0], field));
    if mentions_once(lines[0], field) {
        lemma_once_excludes_never(lines[0], field);
    }
    if lines.len() == 2 {
        assert(mentions_once(lines[1], field) || mentions_never(lines[1], field));
        if mentions_once(lines[1], field) {
            lemma_once_excludes_never(lines[1], field);
        }
    }
}



/// The command lines of a restore mention the fields of a target as those of
/// its backup do: each line holds every field at most once, and a field is
/// the target's own exactly when some line holds it.
pub proof fn law_restore_commands_mention_own_fields_once(target: BackupParamsView, field: Field)
    ensures
        forall|i: int|
            0 <= i < target.restore_protocol().len() ==> mentions_once(
                #[trigger] target.restore_protocol()[i],
                field,
            ) || mentions_never(target.restore_protocol()[i], field),
        target.owns(field) <==> exists|i: int|
            0 <= i < target.restore_protocol().len() && mentions_once(
                #[trigger] target.restore_protocol()[i],
                field,
            ),
        target.restore_protocol().len() == 1 || (target is MongodbDocker
            && target.restore_protocol().len() == 2),
{
    lemma_postgresql_restore_slots(field);
    lemma_postgresql_docker_restore_slots(field);
    lemma_mongodb_login_restore_slots(field);
    lemma_mongodb_user_restore_slots(field);
    lemma_mongodb_docker_user_restore_slots(field);
    lemma_mongodb_open_restore_slots(field);
    lemma_mongodb_docker_load_slots(field);
    lemma_mongodb_docker_login_restore_slots(field);
    lemma_mongodb_docker_open_restore_slots(field);
    lemma_folder_restore_slots(field);
    lemma_mysql_restore_slots(field);
    lemma_mysql_docker_restore_slots(field);
    let lines = target.restore_protocol();
    assert(mentions_once(lines[0], field) || mentions_never(lines[0], field));
    if mentions_once(lines[0], field) {
        lemma_once_excludes_never(lines[0], field);
    }
    if lines.len() == 2 {
        assert(mentions_once(lines[1], field) || mentions_never(lines[1], field));
        if mentions_once(lines[1], field) {
            lemma_once_excludes_never(lines[1], field);
        }
    }
}



/// The lines of a target call `docker` exactly where its data source runs in
/// a container: every line of the backup and of the restore of such a target
/// begins with that word, and no line of another target does.
pub proof fn law_only_containers_call_docker(target: BackupParamsView)
    ensures
        forall|i: int|
            0 <= i < target.protocol().len() ==> (calls_docker(#[trigger] target.protocol()[i])
                <==> target.in_container()),
        forall|i: int|
            0 <= i < target.restore_protocol().len() ==> (calls_docker(
                #[trigger] target.restore_protocol()[i],
            ) <==> target.in_container()),
{
    reveal_strlit("docker ");
    reveal_strlit("docker exec ");
    reveal_strlit("docker exec -i ");
    reveal_strlit("docker cp ");
    reveal_strlit("PGPASSWORD=\"");
    reveal_strlit("MYSQL_PWD=");
    reveal_strlit("mongodump --host ");
    reveal_strlit("mongorestore --host ");
    reveal_strlit("tar -czvf ");
    reveal_strlit("tar -xzvf ");
    let word = "docker "@;
    assert("docker exec "@.take(7) =~= word);
    assert("docker exec -i "@.take(7) =~= word);
    assert("docker cp "@.take(7) =~= word);
    assert("PGPASSWORD=\""@.take(7)[0] != word[0]);
    assert("MYSQL_PWD="@.take(7)[0] != word[0]);
    assert("mongodump --host "@.take(7)[0] != word[0]);
    assert("mongorestore --host "@.take(7)[0] != word[0]);
    assert("tar -czvf "@.take(7)[0] != word[0]);
    assert("tar -xzvf "@.take(7)[0] != word[0]);
    let backup = target.protocol();
    let restore = target.restore_protocol();
    assert(calls_docker(backup[0]) <==> target.in_container());
    assert(calls_docker(restore[0]) <==> target.in_container());
    if backup.len() == 2 {
        assert(calls_docker(backup[1]) <==> target.in_container());
        assert(calls_docker(restore[1]) <==> target.in_container());
    }
}

/// The password of a document database reaches the tool unchanged: where a
/// user name and a password are given, a shell reads from the text that
/// stands for the password in the command line the password itself, whatever
/// characters it holds.
pub proof fn law_document_password_reaches_the_tool(
    target: BackupParamsView,
    artifact: Seq<char>,
    password: Seq<char>,
)
    requires
        match target {
            BackupParamsView::Mongodb { db_user, db_password, .. } => db_user is Some
                && db_password == Some(password),
            BackupParamsView::MongodbDocker { db_user, db_password, .. } => db_user is Some
                && db_password == Some(password),
            _ => false,
        },
    ensures
        target.owns(Field::Password),
        shell_reads(target.field_text(artifact, Field::Password)) == Some(password),
{
    law_shell_reads_quoted_text_back(password);
}

} // verus!
