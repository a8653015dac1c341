# reims-vGPU GUI

A desktop front end that prepares and runs a macOS virtual machine with
reims-vGPU on Linux: it checks the system, downloads OSX-KVM and a macOS
recovery image, creates the virtual disk, runs the installer, imports the
guest into a reims-vGPU checkout, builds QEMU, launches the VM and keeps the
GUI and the checkout up to date.

## Layout

- `src/` is the library, verified with Verus. It holds every decision the
  program makes: where files live, which tools are missing and which
  packages provide them, which release tag is the newest, what each task
  does next and what status it shows. A decision that needs the machine
  takes what the machine said as plain values (a `Disk` snapshot of which
  paths exist, the poll of a background process, a program's output) and
  returns the work to carry out as a `Job`: steps and possibly a process
  to start.
- `app/` is the window (eframe/egui) and the part that touches the machine:
  it reads the environment, probes the paths the library names, carries
  out jobs and polls processes, then hands the outcome back to the library.
- `tests/` runs the library on concrete values.
