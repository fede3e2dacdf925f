use lx::docker::{clean_images, pull_plan, start_plan, stop_plan};

const DEV_FILE: &str = "-f/Users/xavier2p/Developer/javascript/helix/docker-compose.dev.yml";
const PROD_FILE: &str = "-f/Users/xavier2p/Developer/javascript/helix/releases/docker-compose.yml";

#[test]
fn start_plan_dev_builds() {
    let plan = start_plan(true);
    assert_eq!(plan.file_arg, DEV_FILE);
    assert_eq!(plan.args, vec![String::from("up"), String::from("--build")]);
}

#[test]
fn start_plan_prod_detaches() {
    let plan = start_plan(false);
    assert_eq!(plan.file_arg, PROD_FILE);
    assert_eq!(plan.args, vec![String::from("up"), String::from("-d")]);
}

#[test]
fn stop_plan_takes_the_stack_down() {
    let dev = stop_plan(true);
    assert_eq!(dev.file_arg, DEV_FILE);
    assert_eq!(dev.args, vec![String::from("down")]);
    let prod = stop_plan(false);
    assert_eq!(prod.file_arg, PROD_FILE);
    assert_eq!(prod.args, vec![String::from("down")]);
}

#[test]
fn pull_plan_uses_the_install_compose_file() {
    let plan = pull_plan();
    assert_eq!(plan.file_arg, "-f./docker-compose.yml");
    assert_eq!(plan.args, vec![String::from("pull")]);
}

#[test]
fn clean_images_dev_names() {
    assert_eq!(
        clean_images(true),
        vec![
            String::from("helix-dev-server"),
            String::from("helix-dev-db"),
            String::from("helix-dev-client"),
        ]
    );
}

#[test]
fn clean_images_prod_names() {
    assert_eq!(
        clean_images(false),
        vec![
            String::from("xavier2p/helix-server"),
            String::from("xavier2p/helix-db"),
            String::from("xavier2p/helix-client"),
        ]
    );
}
