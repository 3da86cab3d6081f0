//! The command lines written out: what each line spells, as one text.

use crate::structures::backup_params::BackupParamsView;
use crate::structures::command_line::{
    folder_restore_template, folder_template, mongodb_docker_copy_template,
    mongodb_docker_load_template, mongodb_docker_login_restore_template,
    mongodb_docker_login_template, mongodb_docker_open_restore_template,
    mongodb_docker_open_template, mongodb_docker_user_restore_template,
    mongodb_docker_user_template, mongodb_login_restore_template, mongodb_login_template,
    mongodb_open_restore_template, mongodb_open_template, mongodb_user_restore_template,
    mongodb_user_template, mysql_docker_restore_template, mysql_docker_template,
    mysql_restore_template, mysql_template, postgresql_docker_restore_template,
    postgresql_docker_template, postgresql_restore_template, postgresql_template, Field,
};
use vstd::prelude::*;

verus! {

/// The text that `postgresql_template` spells.
pub proof fn law_postgresql_text(target: BackupParamsView, artifact: Seq<char>)
    ensures
        target.render(artifact, postgresql_template()) == "PGPASSWORD=\""@
            + target.field_text(artifact, Field::Password) + "\" pg_dump -U "@
            + target.field_text(artifact, Field::User) + " -h "@
            + target.field_text(artifact, Field::Host) + " -p "@
            + target.field_text(artifact, Field::Port) + " "@
            + target.field_text(artifact, Field::Database) + " > "@ + artifact,
{
    reveal_with_fuel(BackupParamsView::render, 13);
}

/// The text that `postgresql_docker_template` spells.
pub proof fn law_postgresql_docker_text(target: BackupParamsView, artifact: Seq<char>)
    ensures
        target.render(artifact, postgresql_docker_template()) == "docker exec "@
            + target.field_text(artifact, Field::Container) + " bash -c \"PGPASSWORD='"@
            + target.field_text(artifact, Field::Password) + "' pg_dump -U "@
            + target.field_text(artifact, Field::User) + " "@
            + target.field_text(artifact, Field::Database) + "\" > "@ + artifact,
{
    reveal_with_fuel(BackupParamsView::render, 11);
}

/// The text that `mongodb_login_template` spells.
pub proof fn law_mongodb_login_text(target: BackupParamsView, artifact: Seq<char>)
    ensures
        target.render(artifact, mongodb_login_template()) == "mongodump --host "@
            + target.field_text(artifact, Field::Host) + " --port "@
            + target.field_text(artifact, Field::Port) + " --username "@
            + target.field_text(artifact, Field::User) + " --password "@
            + target.field_text(artifact, Field::Password)
            + " --authenticationDatabase admin --archive="@ + artifact + " --gzip"@,
{
    reveal_with_fuel(BackupParamsView::render, 12);
}

/// The text that `mongodb_user_template` spells.
pub proof fn law_mongodb_user_text(target: BackupParamsView, artifact: Seq<char>)
    ensures
        target.render(artifact, mongodb_user_template()) == "mongodump --host "@
            + target.field_text(artifact, Field::Host) + " --port "@
            + target.field_text(artifact, Field::Port) + " --username "@
            + target.field_text(artifact, Field::User)
            + " --authenticationDatabase admin --archive="@ + artifact + " --gzip"@,
{
    reveal_with_fuel(BackupParamsView::render, 10);
}

/// The text that `mongodb_open_template` spells.
pub proof fn law_mongodb_open_text(target: BackupParamsView, artifact: Seq<char>)
    ensures
        target.render(artifact, mongodb_open_template()) == "mongodump --host "@
            + target.field_text(artifact, Field::Host) + " --port "@
            + target.field_text(artifact, Field::Port) + " --archive="@ + artifact + " --gzip"@,
{
    reveal_with_fuel(BackupParamsView::render, 8);
}

/// The text that `mongodb_docker_login_template` spells.
pub proof fn law_mongodb_docker_login_text(target: BackupParamsView, artifact: Seq<char>)
    ensures
        target.render(artifact, mongodb_docker_login_template()) == "docker exec "@
            + target.field_text(artifact, Field::Container) + " mongodump --username "@
            + target.field_text(artifact, Field::User) + " --password "@
            + target.field_text(artifact, Field::Password)
            + " --authenticationDatabase admin --archive=/backup/backup.gz --gzip"@,
{
    reveal_with_fuel(BackupParamsView::render, 8);
}

/// The text that `mongodb_docker_user_template` spells.
pub proof fn law_mongodb_docker_user_text(target: BackupParamsView, artifact: Seq<char>)
    ensures
        target.render(artifact, mongodb_docker_user_template()) == "docker exec "@
            + target.field_text(artifact, Field::Container) + " mongodump --username "@
            + target.field_text(artifact, Field::User)
            + " --authenticationDatabase admin --archive=/backup/backup.gz --gzip"@,
{
    reveal_with_fuel(BackupParamsView::render, 6);
}

/// The text that `mongodb_docker_open_template` spells.
pub proof fn law_mongodb_docker_open_text(target: BackupParamsView, artifact: Seq<char>)
    ensures
        target.render(artifact, mongodb_docker_open_template()) == "docker exec "@
            + target.field_text(artifact, Field::Container)
            + " mongodump --archive=/backup/backup.gz --gzip"@,
{
    reveal_with_fuel(BackupParamsView::render, 4);
}

/// The text that `mongodb_docker_copy_template` spells.
pub proof fn law_mongodb_docker_copy_text(target: BackupParamsView, artifact: Seq<char>)
    ensures
        target.render(artifact, mongodb_docker_copy_template()) == "docker cp "@
            + target.field_text(artifact, Field::Container) + ":/backup/backup.gz "@ + artifact,
{
    reveal_with_fuel(BackupParamsView::render, 5);
}

/// The text that `folder_template` spells.
pub proof fn law_folder_text(target: BackupParamsView, artifact: Seq<char>)
    ensures
        target.render(artifact, folder_template()) == "tar -czvf "@ + artifact + " -C "@
            + target.field_text(artifact, Field::Source) + " ."@,
{
    reveal_with_fuel(BackupParamsView::render, 6);
}

/// The text that `mysql_template` spells.
pub proof fn law_mysql_text(target: BackupParamsView, artifact: Seq<char>)
    ensures
        target.render(artifact, mysql_template()) == "MYSQL_PWD="@
            + target.field_text(artifact, Field::Password) + " mysqldump -u "@
            + target.field_text(artifact, Field::User) + " -h "@
            + target.field_text(artifact, Field::Host) + " -P "@
            + target.field_text(artifact, Field::Port) + " "@
            + target.field_text(artifact, Field::Database) + " > "@ + artifact,
{
    reveal_with_fuel(BackupParamsView::render, 13);
}

/// The text that `mysql_docker_template` spells.
pub proof fn law_mysql_docker_text(target: BackupParamsView, artifact: Seq<char>)
    ensures
        target.render(artifact, mysql_docker_template()) == "docker exec "@
            + target.field_text(artifact, Field::Container) + " bash -c \"MYSQL_PWD='"@
            + target.field_text(artifact, Field::Password) + "' mysqldump -u "@
            + target.field_text(artifact, Field::User) + " "@
            + target.field_text(artifact, Field::Database) + "\" > "@ + artifact,
{
    reveal_with_fuel(BackupParamsView::render, 11);
}

/// The text that `postgresql_restore_template` spells.
pub proof fn law_postgresql_restore_text(target: BackupParamsView, artifact: Seq<char>)
    ensures
        target.render(artifact, postgresql_restore_template()) == "PGPASSWORD=\""@
            + target.field_text(artifact, Field::Password) + "\" psql -U "@
            + target.field_text(artifact, Field::User) + " -h "@
            + target.field_text(artifact, Field::Host) + " -p "@
            + target.field_text(artifact, Field::Port) + " "@
            + target.field_text(artifact, Field::Database) + " < "@ + artifact,
{
    reveal_with_fuel(BackupParamsView::render, 13);
}

/// The text that `postgresql_docker_restore_template` spells.
pub proof fn law_postgresql_docker_restore_text(target: BackupParamsView, artifact: Seq<char>)
    ensures
        target.render(artifact, postgresql_docker_restore_template()) == "docker exec -i "@
            + target.field_text(artifact, Field::Container) + " bash -c \"PGPASSWORD='"@
            + target.field_text(artifact, Field::Password) + "' psql -U "@
            + target.field_text(artifact, Field::User) + " "@
            + target.field_text(artifact, Field::Database) + "\" < "@ + artifact,
{
    reveal_with_fuel(BackupParamsView::render, 11);
}

/// The text that `mongodb_login_restore_template` spells.
pub proof fn law_mongodb_login_restore_text(target: BackupParamsView, artifact: Seq<char>)
    ensures
        target.render(artifact, mongodb_login_restore_template()) == "mongorestore --host "@
            + target.field_text(artifact, Field::Host) + " --port "@
            + target.field_text(artifact, Field::Port) + " --username "@
            + target.field_text(artifact, Field::User) + " --password "@
            + target.field_text(artifact, Field::Password)
            + " --authenticationDatabase admin --archive="@ + artifact + " --gzip"@,
{
    reveal_with_fuel(BackupParamsView::render, 12);
}

/// The text that `mongodb_user_restore_template` spells.
pub proof fn law_mongodb_user_restore_text(target: BackupParamsView, artifact: Seq<char>)
    ensures
        target.render(artifact, mongodb_user_restore_template()) == "mongorestore --host "@
            + target.field_text(artifact, Field::Host) + " --port "@
            + target.field_text(artifact, Field::Port) + " --username "@
            + target.field_text(artifact, Field::User)
            + " --authenticationDatabase admin --archive="@ + artifact + " --gzip"@,
{
    reveal_with_fuel(BackupParamsView::render, 10);
}

/// The text that `mongodb_open_restore_template` spells.
pub proof fn law_mongodb_open_restore_text(target: BackupParamsView, artifact: Seq<char>)
    ensures
        target.render(artifact, mongodb_open_restore_template()) == "mongorestore --host "@
            + target.field_text(artifact, Field::Host) + " --port "@
            + target.field_text(artifact, Field::Port) + " --archive="@ + artifact + " --gzip"@,
{
    reveal_with_fuel(BackupParamsView::render, 8);
}

/// The text that `mongodb_docker_load_template` spells.
pub proof fn law_mongodb_docker_load_text(target: BackupParamsView, artifact: Seq<char>)
    ensures
        target.render(artifact, mongodb_docker_load_template()) == "docker cp "@ + artifact + " "@
            + target.field_text(artifact, Field::Container) + ":/backup/backup.gz"@,
{
    reveal_with_fuel(BackupParamsView::render, 6);
}

/// The text that `mongodb_docker_login_restore_template` spells.
pub proof fn law_mongodb_docker_login_restore_text(target: BackupParamsView, artifact: Seq<char>)
    ensures
        target.render(artifact, mongodb_docker_login_restore_template()) == "docker exec "@
            + target.field_text(artifact, Field::Container) + " mongorestore --username "@
            + target.field_text(artifact, Field::User) + " --password "@
            + target.field_text(artifact, Field::Password)
            + " --authenticationDatabase admin --archive=/backup/backup.gz --gzip"@,
{
    reveal_with_fuel(BackupParamsView::render, 8);
}

/// The text that `mongodb_docker_user_restore_template` spells.
pub proof fn law_mongodb_docker_user_restore_text(target: BackupParamsView, artifact: Seq<char>)
    ensures
        target.render(artifact, mongodb_docker_user_restore_template()) == "docker exec "@
            + target.field_text(artifact, Field::Container) + " mongorestore --username "@
            + target.field_text(artifact, Field::User)
            + " --authenticationDatabase admin --archive=/backup/backup.gz --gzip"@,
{
    reveal_with_fuel(BackupParamsView::render, 6);
}

/// The text that `mongodb_docker_open_restore_template` spells.
pub proof fn law_mongodb_docker_open_restore_text(target: BackupParamsView, artifact: Seq<char>)
    ensures
        target.render(artifact, mongodb_docker_open_restore_template()) == "docker exec "@
            + target.field_text(artifact, Field::Container)
            + " mongorestore --archive=/backup/backup.gz --gzip"@,
{
    reveal_with_fuel(BackupParamsView::render, 4);
}

/// The text that `folder_restore_template` spells.
pub proof fn law_folder_restore_text(target: BackupParamsView, artifact: Seq<char>)
    ensures
        target.render(artifact, folder_restore_template()) == "tar -xzvf "@ + artifact + " -C "@
            + target.field_text(artifact, Field::Source),
{
    reveal_with_fuel(BackupParamsView::render, 5);
}

/// The text that `mysql_restore_template` spells.
pub proof fn law_mysql_restore_text(target: BackupParamsView, artifact: Seq<char>)
    ensures
        target.render(artifact, mysql_restore_template()) == "MYSQL_PWD="@
            + target.field_text(artifact, Field::Password) + " mysql -u "@
            + target.field_text(artifact, Field::User) + " -h "@
            + target.field_text(artifact, Field::Host) + " -P "@
            + target.field_text(artifact, Field::Port) + " "@
            + target.field_text(artifact, Field::Database) + " < "@ + artifact,
{
    reveal_with_fuel(BackupParamsView::render, 13);
}

/// The text that `mysql_docker_restore_template` spells.
pub proof fn law_mysql_docker_restore_text(target: BackupParamsView, artifact: Seq<char>)
    ensures
        target.render(artifact, mysql_docker_restore_template()) == "docker exec -i "@
            + target.field_text(artifact, Field::Container) + " bash -c \"MYSQL_PWD='"@
            + target.field_text(artifact, Field::Password) + "' mysql -u "@
            + target.field_text(artifact, Field::User) + " "@
            + target.field_text(artifact, Field::Database) + "\" < "@ + artifact,
{
    reveal_with_fuel(BackupParamsView::render, 11);
}

} // verus!
